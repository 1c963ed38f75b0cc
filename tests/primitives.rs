use ejni::Primitive;
use jni::{InitArgsBuilder, JNIVersion, JavaVM};
use std::sync::OnceLock;

static JVM: OnceLock<JavaVM> = OnceLock::new();

fn jvm() -> &'static JavaVM {
    JVM.get_or_init(|| {
        let jvm_args = InitArgsBuilder::new()
            .version(JNIVersion::V8)
            .option("-Xcheck:jni")
            .build()
            .unwrap();
        JavaVM::new(jvm_args).unwrap()
    })
}

#[test]
fn new_int_array() {
    let env = jvm().attach_current_thread().unwrap();

    let value = &[1, 2, 3];
    assert!(Primitive::new_int_array(&env, value).is_ok());
}

#[test]
fn new_byte_array() {
    let env = jvm().attach_current_thread().unwrap();

    let value = &[1, 2, 3];
    assert!(Primitive::new_byte_array(&env, value).is_ok());
}

#[test]
fn new_long_array() {
    let env = jvm().attach_current_thread().unwrap();

    let value = &[1, 2, 3];
    assert!(Primitive::new_long_array(&env, value).is_ok());
}

#[test]
fn new_char_array() {
    let env = jvm().attach_current_thread().unwrap();

    let value = &[1, 2, 3];
    assert!(Primitive::new_char_array(&env, value).is_ok());
}

#[test]
fn new_short_array() {
    let env = jvm().attach_current_thread().unwrap();

    let value = &[1, 2, 3];
    assert!(Primitive::new_short_array(&env, value).is_ok());
}

#[test]
fn new_boolean_array() {
    let env = jvm().attach_current_thread().unwrap();

    let value = &[true, false, true];
    assert!(Primitive::new_boolean_array(&env, value).is_ok());
}

#[test]
fn get_int_array() {
    let env = jvm().attach_current_thread().unwrap();

    let value = &[1, 2, 3];
    let arr = Primitive::new_int_array(&env, value).unwrap();

    let converted = Primitive::get_int_array(&env, &arr);
    assert!(converted.is_ok());
    let converted = converted.unwrap();

    assert_eq!(value, converted.as_slice());
}

#[test]
fn get_byte_array() {
    let env = jvm().attach_current_thread().unwrap();

    let value = &[1, 2, 3];
    let arr = Primitive::new_byte_array(&env, value).unwrap();

    let converted = Primitive::get_byte_array(&env, &arr);
    assert!(converted.is_ok());
    let converted = converted.unwrap();

    assert_eq!(value, converted.as_slice());
}

#[test]
fn get_long_array() {
    let env = jvm().attach_current_thread().unwrap();

    let value = &[1, 2, 3];
    let arr = Primitive::new_long_array(&env, value).unwrap();

    let converted = Primitive::get_long_array(&env, &arr);
    assert!(converted.is_ok());
    let converted = converted.unwrap();

    assert_eq!(value, converted.as_slice());
}

#[test]
fn get_char_array() {
    let env = jvm().attach_current_thread().unwrap();

    let value = &[1, 2, 3];
    let arr = Primitive::new_char_array(&env, value).unwrap();

    let converted = Primitive::get_char_array(&env, &arr);
    assert!(converted.is_ok());
    let converted = converted.unwrap();

    assert_eq!(value, converted.as_slice());
}

#[test]
fn get_short_array() {
    let env = jvm().attach_current_thread().unwrap();

    let value = &[1, 2, 3];
    let arr = Primitive::new_short_array(&env, value).unwrap();

    let converted = Primitive::get_short_array(&env, &arr);
    assert!(converted.is_ok());
    let converted = converted.unwrap();

    assert_eq!(value, converted.as_slice());
}

#[test]
fn get_boolean_array() {
    let env = jvm().attach_current_thread().unwrap();

    let value = &[true, false, true];
    let arr = Primitive::new_boolean_array(&env, value).unwrap();

    let converted = Primitive::get_boolean_array(&env, &arr);
    assert!(converted.is_ok());
    let converted = converted.unwrap();

    assert_eq!(value, converted.as_slice());
}
