use ejni::{Class, List, Object};
use jni::{InitArgsBuilder, JNIVersion, JavaVM};
use std::sync::OnceLock;

static JVM: OnceLock<JavaVM> = OnceLock::new();

fn jvm() -> &'static JavaVM {
    JVM.get_or_init(|| {
        let jvm_args = InitArgsBuilder::new()
            .version(JNIVersion::V8)
            .option("-Xcheck:jni")
            .build()
            .unwrap();
        JavaVM::new(jvm_args).unwrap()
    })
}

#[test]
fn has_next() {
    let mut env = jvm().attach_current_thread().unwrap();
    let int_class = Class::Integer(&mut env).unwrap();
    let list = List::arraylist(&mut env, int_class).unwrap();

    let iterator = list.iterator(&mut env).unwrap();
    let has_next = iterator.has_next(&mut env);
    assert!(has_next.is_ok());
    assert!(!has_next.unwrap());

    let value = Object::new_integer_object(&mut env, 10).unwrap();
    list.add(&mut env, &value).unwrap();
    let iterator = list.iterator(&mut env).unwrap();
    let has_next = iterator.has_next(&mut env);
    assert!(has_next.is_ok());
    assert!(has_next.unwrap());
}

#[test]
fn next() {
    let mut env = jvm().attach_current_thread().unwrap();
    let int_class = Class::Integer(&mut env).unwrap();
    let list = List::arraylist(&mut env, int_class).unwrap();

    let iterator = list.iterator(&mut env).unwrap();
    let next = iterator.next(&mut env);
    assert!(next.is_ok());
    assert!(next.unwrap().is_none());

    let value = Object::new_integer_object(&mut env, 10).unwrap();
    list.add(&mut env, &value).unwrap();

    let iterator = list.iterator(&mut env).unwrap();
    let next = iterator.next(&mut env);
    assert!(next.is_ok());

    let next = next.unwrap();
    assert!(next.is_some());

    let next = next.unwrap();
    assert_eq!(value.get_integer(&mut env).unwrap(), next.get_integer(&mut env).unwrap());
}

#[test]
fn to_vec() {
    let mut env = jvm().attach_current_thread().unwrap();
    let int_class = Class::Integer(&mut env).unwrap();
    let list = List::arraylist(&mut env, int_class).unwrap();

    let iterator = list.iterator(&mut env).unwrap();
    let vec = iterator.to_vec(&mut env);
    assert!(vec.is_ok());

    let vec = vec.unwrap();
    assert!(vec.is_empty());

    let value = Object::new_integer_object(&mut env, 10).unwrap();
    list.add(&mut env, &value).unwrap();
    let iterator = list.iterator(&mut env).unwrap();

    let vec = iterator.to_vec(&mut env);
    assert!(vec.is_ok());
    let vec = vec.unwrap();

    assert!(!vec.is_empty());
    let front = vec.first();
    assert!(front.is_some());

    let front = front.unwrap();
    assert_eq!(value.get_integer(&mut env).unwrap(), front.get_integer(&mut env).unwrap());
}
