use ejni::{Class, List, Object};
use jni::JNIEnv;
use jni::{InitArgsBuilder, JNIVersion, JavaVM};
use std::sync::OnceLock;

static JVM: OnceLock<JavaVM> = OnceLock::new();

fn jvm() -> &'static JavaVM {
    JVM.get_or_init(|| {
        let jvm_args = InitArgsBuilder::new()
            .version(JNIVersion::V8)
            .option("-Xcheck:jni")
            .build()
            .unwrap();
        JavaVM::new(jvm_args).unwrap()
    })
}

fn int_value(env: &mut JNIEnv, object: &Object) -> i32 {
    env.call_method(object.as_obj(), "intValue", "()I", &[]).unwrap().i().unwrap()
}

#[test]
fn arraylist() {
    let mut env = jvm().attach_current_thread().unwrap();
    let object_class = Class::Object(&mut env).unwrap();
    assert!(List::arraylist(&mut env, object_class).is_ok())
}

#[test]
fn add() {
    let mut env = jvm().attach_current_thread().unwrap();
    let int_class = Class::Integer(&mut env).unwrap();
    let list = List::arraylist(&mut env, int_class).unwrap();

    let value = Object::new_integer_object(&mut env, 10).unwrap();
    let has_changed = list.add(&mut env, &value).unwrap();
    assert!(has_changed);

    let size = list.size(&mut env).unwrap();
    assert_eq!(1, size);
}

#[test]
fn add_at() {
    let mut env = jvm().attach_current_thread().unwrap();
    let int_class = Class::Integer(&mut env).unwrap();
    let list = List::arraylist(&mut env, int_class).unwrap();
    let twenty = Object::new_integer_object(&mut env, 20).unwrap();
    list.add(&mut env, &twenty).unwrap();

    let ten = Object::new_integer_object(&mut env, 10).unwrap();
    list.add_at(&mut env, &ten, 0).unwrap();

    let zeroth = list.get(&mut env, 0).unwrap().unwrap();
    let zeroth_int = int_value(&mut env, &zeroth);
    assert_eq!(10, zeroth_int);

    let first = list.get(&mut env, 1).unwrap().unwrap();
    let first_int = int_value(&mut env, &first);
    assert_eq!(20, first_int);
}

#[test]
fn list_clear() {
    let mut env = jvm().attach_current_thread().unwrap();
    let int_class = Class::Integer(&mut env).unwrap();
    let list = List::arraylist(&mut env, int_class).unwrap();
    let twenty = Object::new_integer_object(&mut env, 20).unwrap();
    list.add(&mut env, &twenty).unwrap();

    list.clear(&mut env).unwrap();

    let size = list.size(&mut env).unwrap();
    assert_eq!(0, size);
}

#[test]
fn contains() {
    let mut env = jvm().attach_current_thread().unwrap();
    let int_class = Class::Integer(&mut env).unwrap();
    let list = List::arraylist(&mut env, int_class).unwrap();
    let integer = Object::new_integer_object(&mut env, 20).unwrap();
    list.add(&mut env, &integer).unwrap();

    let contains = list.contains(&mut env, &integer).unwrap();
    assert!(contains)
}

#[test]
fn list_get() {
    let mut env = jvm().attach_current_thread().unwrap();
    let int_class = Class::Integer(&mut env).unwrap();
    let list = List::arraylist(&mut env, int_class).unwrap();
    let integer = Object::new_integer_object(&mut env, 20).unwrap();
    list.add(&mut env, &integer).unwrap();

    let zeroth = list.get(&mut env, 0).unwrap().unwrap();
    assert!(integer.equals(&mut env, &zeroth).unwrap())
}

#[test]
fn index_of() {
    let mut env = jvm().attach_current_thread().unwrap();
    let int_class = Class::Integer(&mut env).unwrap();
    let list = List::arraylist(&mut env, int_class).unwrap();
    let integer = Object::new_integer_object(&mut env, 20).unwrap();
    list.add(&mut env, &integer).unwrap();

    let index_of = list.index_of(&mut env, &integer).unwrap();
    assert_eq!(0, index_of);
}

#[test]
fn list_is_empty() {
    let mut env = jvm().attach_current_thread().unwrap();
    let int_class = Class::Integer(&mut env).unwrap();
    let list = List::arraylist(&mut env, int_class).unwrap();

    let is_empty = list.is_empty(&mut env).unwrap();
    assert!(is_empty);
}

#[test]
fn list_remove() {
    let mut env = jvm().attach_current_thread().unwrap();
    let int_class = Class::Integer(&mut env).unwrap();
    let list = List::arraylist(&mut env, int_class).unwrap();
    let integer = Object::new_integer_object(&mut env, 20).unwrap();
    list.add(&mut env, &integer).unwrap();

    let list_changed = list.remove(&mut env, &integer).unwrap();
    assert!(list_changed);
}

#[test]
fn remove_at() {
    let mut env = jvm().attach_current_thread().unwrap();
    let int_class = Class::Integer(&mut env).unwrap();
    let list = List::arraylist(&mut env, int_class).unwrap();
    let integer = Object::new_integer_object(&mut env, 20).unwrap();
    list.add(&mut env, &integer).unwrap();

    let removed = list.remove_at(&mut env, 0).unwrap().unwrap();
    let equals = integer.equals(&mut env, &removed).unwrap();

    assert!(equals)
}

#[test]
fn set() {
    let mut env = jvm().attach_current_thread().unwrap();
    let int_class = Class::Integer(&mut env).unwrap();
    let list = List::arraylist(&mut env, int_class).unwrap();
    let integer = Object::new_integer_object(&mut env, 20).unwrap();
    list.add(&mut env, &integer).unwrap();

    let new_integer = Object::new_integer_object(&mut env, 10).unwrap();

    let old_integer = list.set(&mut env, &new_integer, 0).unwrap().unwrap();
    let equal = integer.equals(&mut env, &old_integer).unwrap();
    assert!(equal);
}

#[test]
fn list_size() {
    let mut env = jvm().attach_current_thread().unwrap();
    let int_class = Class::Integer(&mut env).unwrap();
    let list = List::arraylist(&mut env, int_class).unwrap();
    let integer = Object::new_integer_object(&mut env, 20).unwrap();
    list.add(&mut env, &integer).unwrap();

    let size = list.size(&mut env).unwrap();
    assert_eq!(1, size);
}

#[test]
fn sublist() {
    let mut env = jvm().attach_current_thread().unwrap();
    let int_class = Class::Integer(&mut env).unwrap();
    let list = List::arraylist(&mut env, int_class).unwrap();
    for value in [10, 20, 30] {
        let integer = Object::new_integer_object(&mut env, value).unwrap();
        list.add(&mut env, &integer).unwrap();
    }

    let sublist = list.sublist(&mut env, 1, 3).unwrap();
    let size = sublist.size(&mut env).unwrap();
    assert_eq!(2, size);
}

#[test]
fn iterator() {
    let mut env = jvm().attach_current_thread().unwrap();
    let int_class = Class::Integer(&mut env).unwrap();
    let list = List::arraylist(&mut env, int_class).unwrap();

    let iterator = list.iterator(&mut env);
    assert!(iterator.is_ok());
}
