use ejni::{Class, JavaMap, Object};
use jni::{InitArgsBuilder, JNIVersion, JavaVM};
use std::sync::OnceLock;

static JVM: OnceLock<JavaVM> = OnceLock::new();

fn jvm() -> &'static JavaVM {
    JVM.get_or_init(|| {
        let jvm_args = InitArgsBuilder::new()
            .version(JNIVersion::V8)
            .option("-Xcheck:jni")
            .build()
            .unwrap();
        JavaVM::new(jvm_args).unwrap()
    })
}

#[test]
fn hashmap() {
    let mut env = jvm().attach_current_thread().unwrap();
    let int_class = Class::Integer(&mut env).unwrap();

    assert!(JavaMap::hashmap(&mut env, int_class.clone(), int_class.clone()).is_ok());
    assert!(JavaMap::hashmap_with_capacity(&mut env, int_class.clone(), int_class, 32).is_ok());
}

#[test]
fn put() {
    let mut env = jvm().attach_current_thread().unwrap();
    let int_class = Class::Integer(&mut env).unwrap();
    let map = JavaMap::hashmap(&mut env, int_class.clone(), int_class).unwrap();

    let key = Object::new_integer_object(&mut env, 1).unwrap();
    let value = Object::new_integer_object(&mut env, 10).unwrap();
    let put_result = map.put(&mut env, &key, &value);
    assert!(put_result.is_ok());
}

#[test]
fn map_get() {
    let mut env = jvm().attach_current_thread().unwrap();
    let int_class = Class::Integer(&mut env).unwrap();
    let map = JavaMap::hashmap(&mut env, int_class.clone(), int_class).unwrap();

    let key = Object::new_integer_object(&mut env, 1).unwrap();
    let value = Object::new_integer_object(&mut env, 10).unwrap();

    map.put(&mut env, &key, &value).unwrap();
    let gotten = map.get(&mut env, &key).unwrap();
    assert!(gotten.is_some());

    let gotten = gotten.unwrap().get_integer(&mut env).unwrap();
    assert_eq!(10, gotten);
}

#[test]
fn map_is_empty() {
    let mut env = jvm().attach_current_thread().unwrap();
    let int_class = Class::Integer(&mut env).unwrap();
    let map = JavaMap::hashmap(&mut env, int_class.clone(), int_class).unwrap();

    let is_empty = map.is_empty(&mut env);
    assert!(is_empty.is_ok());
    let is_empty = is_empty.unwrap();
    assert!(is_empty);
}

#[test]
fn map_size() {
    let mut env = jvm().attach_current_thread().unwrap();
    let int_class = Class::Integer(&mut env).unwrap();
    let map = JavaMap::hashmap(&mut env, int_class.clone(), int_class).unwrap();

    let key = Object::new_integer_object(&mut env, 1).unwrap();
    let value = Object::new_integer_object(&mut env, 10).unwrap();
    map.put(&mut env, &key, &value).unwrap();

    let size = map.size(&mut env);
    assert!(size.is_ok());

    let size = size.unwrap();
    assert_eq!(1, size);
}

#[test]
fn contains_key() {
    let mut env = jvm().attach_current_thread().unwrap();
    let int_class = Class::Integer(&mut env).unwrap();
    let map = JavaMap::hashmap(&mut env, int_class.clone(), int_class).unwrap();

    let key = Object::new_integer_object(&mut env, 1).unwrap();
    let value = Object::new_integer_object(&mut env, 10).unwrap();
    map.put(&mut env, &key, &value).unwrap();

    let contains_key = map.contains_key(&mut env, &key);
    assert!(contains_key.is_ok());

    let contains_key = contains_key.unwrap();
    assert!(contains_key);
}

#[test]
fn contains_value() {
    let mut env = jvm().attach_current_thread().unwrap();
    let int_class = Class::Integer(&mut env).unwrap();
    let map = JavaMap::hashmap(&mut env, int_class.clone(), int_class).unwrap();

    let value = Object::new_integer_object(&mut env, 10).unwrap();
    let key = Object::new_integer_object(&mut env, 1).unwrap();
    map.put(&mut env, &key, &value).unwrap();

    let contains_value = map.contains_value(&mut env, &value);
    assert!(contains_value.is_ok());

    let contains_value = contains_value.unwrap();
    assert!(contains_value);
}

#[test]
fn map_remove() {
    let mut env = jvm().attach_current_thread().unwrap();
    let int_class = Class::Integer(&mut env).unwrap();
    let map = JavaMap::hashmap(&mut env, int_class.clone(), int_class).unwrap();

    let key = Object::new_integer_object(&mut env, 1).unwrap();
    let value = Object::new_integer_object(&mut env, 10).unwrap();
    map.put(&mut env, &key, &value).unwrap();

    let removed = map.remove(&mut env, &key);
    assert!(removed.is_ok());

    let removed = removed.unwrap();
    assert!(removed.is_some());

    let removed = removed.unwrap();
    assert!(value.equals(&mut env, &removed).unwrap())
}

#[test]
fn entry_set() {
    let mut env = jvm().attach_current_thread().unwrap();
    let int_class = Class::Integer(&mut env).unwrap();
    let map = JavaMap::hashmap(&mut env, int_class.clone(), int_class).unwrap();

    let entry_set = map.entry_set(&mut env);
    assert!(entry_set.is_ok());
}

#[test]
fn remove_if_mapped() {
    let mut env = jvm().attach_current_thread().unwrap();
    let int_class = Class::Integer(&mut env).unwrap();
    let map = JavaMap::hashmap(&mut env, int_class.clone(), int_class).unwrap();

    let key = Object::new_integer_object(&mut env, 1).unwrap();
    let value = Object::new_integer_object(&mut env, 10).unwrap();

    map.put(&mut env, &key, &value).unwrap();
    assert_eq!(1, map.size(&mut env).unwrap());

    let other_value = Object::new_integer_object(&mut env, 25).unwrap();
    assert!(map.remove_if_mapped(&mut env, &key, &other_value).is_ok());
    assert_eq!(1, map.size(&mut env).unwrap());

    assert!(map.remove_if_mapped(&mut env, &key, &value).unwrap());
    assert_eq!(0, map.size(&mut env).unwrap());
}

#[test]
fn map_clear() {
    let mut env = jvm().attach_current_thread().unwrap();
    let int_class = Class::Integer(&mut env).unwrap();
    let map = JavaMap::hashmap(&mut env, int_class.clone(), int_class).unwrap();

    let key = Object::new_integer_object(&mut env, 1).unwrap();
    let value = Object::new_integer_object(&mut env, 10).unwrap();
    map.put(&mut env, &key, &value).unwrap();

    let old_size = map.size(&mut env).unwrap();
    assert_eq!(1, old_size);

    assert!(map.clear(&mut env).is_ok());

    let new_size = map.size(&mut env).unwrap();
    assert_eq!(0, new_size);
}
