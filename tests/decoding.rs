use ejni::{
    boolean_arg, boolean_from, buffer_len, byte_arg, byte_from, char_from, collect_step,
    constructor_descriptor, descriptor, int_from, java_length, long_from, nullable, short_from,
    string_or_none, BridgeError, Class, Constructor, JavaMethod, List, Object, Primitive,
};
use jni::objects::{JObject, JValue, JValueGen, JValueOwned};
use jni::{InitArgsBuilder, JNIVersion, JavaVM};
use std::sync::OnceLock;

static JVM: OnceLock<JavaVM> = OnceLock::new();

fn jvm() -> &'static JavaVM {
    JVM.get_or_init(|| {
        let jvm_args = InitArgsBuilder::new()
            .version(JNIVersion::V8)
            .option("-Xcheck:jni")
            .build()
            .unwrap();
        JavaVM::new(jvm_args).unwrap()
    })
}

#[test]
fn method_descriptors() {
    assert_eq!(descriptor(JavaMethod::ListGet), ("get", "(I)Ljava/lang/Object;"));
    assert_eq!(descriptor(JavaMethod::MapRemoveIfMapped), ("remove", "(Ljava/lang/Object;Ljava/lang/Object;)Z"));
    assert_eq!(descriptor(JavaMethod::SystemClearProperty), ("clearProperty", "(Ljava/lang/String;)Ljava/lang/String;"));
    assert_eq!(descriptor(JavaMethod::ListSubList), ("subList", "(II)Ljava/util/List;"));
    assert_eq!(constructor_descriptor(Constructor::Byte), "(B)V");
    assert_eq!(constructor_descriptor(Constructor::NoArgs), "()V");
}

#[test]
fn argument_builders() {
    assert!(matches!(byte_arg(255), JValue::Byte(-1)));
    assert!(matches!(byte_arg(7), JValue::Byte(7)));
    assert!(matches!(boolean_arg(true), JValue::Bool(1)));
    assert!(matches!(boolean_arg(false), JValue::Bool(0)));
}

#[test]
fn value_decoders() {
    let v: JValueOwned = JValueGen::Byte(-1);
    assert_eq!(byte_from(v).unwrap(), 255);
    let v: JValueOwned = JValueGen::Int(5);
    assert!(matches!(byte_from(v), Err(BridgeError::ForeignCall(_))));
    let v: JValueOwned = JValueGen::Long(-9);
    assert_eq!(long_from(v).unwrap(), -9);
    let v: JValueOwned = JValueGen::Int(i32::MIN);
    assert_eq!(int_from(v).unwrap(), i32::MIN);
    let v: JValueOwned = JValueGen::Char(0xffff);
    assert_eq!(char_from(v).unwrap(), 0xffff);
    let v: JValueOwned = JValueGen::Short(-2);
    assert_eq!(short_from(v).unwrap(), -2);
    let v: JValueOwned = JValueGen::Bool(1);
    assert!(boolean_from(v).unwrap());
    let v: JValueOwned = JValueGen::Bool(2);
    assert!(!boolean_from(v).unwrap());
    let v: JValueOwned = JValueGen::Void;
    assert!(matches!(boolean_from(v), Err(BridgeError::ForeignCall(_))));
}

#[test]
fn lengths() {
    assert_eq!(java_length(0), 0);
    assert_eq!(java_length(5), 5);
    assert_eq!(buffer_len(-3), 0);
    assert_eq!(buffer_len(4), 4);
}

#[test]
fn nullable_results() {
    let mut env = jvm().attach_current_thread().unwrap();
    let class = Class::String(&mut env).unwrap();
    let null: JValueOwned = JValueGen::Object(JObject::null());
    assert!(nullable(&env, null, class.clone()).unwrap().is_none());

    let string = env.new_string("x").unwrap();
    let value: JValueOwned = JValueGen::Object(JObject::from(string));
    let object = nullable(&env, value, class.clone()).unwrap().unwrap();
    assert_eq!(object.class.name(), "java/lang/String");

    let v: JValueOwned = JValueGen::Int(1);
    assert!(matches!(nullable(&env, v, class), Err(BridgeError::ForeignCall(_))));
}

#[test]
fn string_results() {
    let mut env = jvm().attach_current_thread().unwrap();
    let null: JValueOwned = JValueGen::Object(JObject::null());
    assert!(string_or_none(&mut env, null).unwrap().is_none());
    let string = env.new_string("héllo").unwrap();
    let value: JValueOwned = JValueGen::Object(JObject::from(string));
    assert_eq!(string_or_none(&mut env, value).unwrap().unwrap(), "héllo");
}

#[test]
fn resolved_lookups() {
    let mut env = jvm().attach_current_thread().unwrap();
    match Class::resolved(&mut env, None, "no/such/Thing") {
        Err(BridgeError::ClassNotFound(name)) => assert_eq!(name, "no/such/Thing"),
        other => panic!("expected ClassNotFound, got {:?}", other),
    }
    assert!(matches!(
        Class::resolved(&mut env, Some(JObject::null()), "x"),
        Err(BridgeError::ClassNotFound(_))
    ));
    let found = JObject::from(env.find_class("java/lang/Integer").unwrap());
    let class = Class::resolved(&mut env, Some(found), "java/lang/Integer").unwrap();
    assert_eq!(class.name(), "java/lang/Integer");
    assert_eq!(class.get_name(&mut env).unwrap(), "java.lang.Integer");
}

#[test]
fn collect_steps() {
    let mut env = jvm().attach_current_thread().unwrap();
    let mut objects = Vec::new();
    let one = Object::new_integer_object(&mut env, 1).unwrap();
    assert!(!collect_step(&mut objects, Some(one)));
    assert_eq!(objects.len(), 1);
    assert!(collect_step(&mut objects, None));
    assert_eq!(objects.len(), 1);
    assert_eq!(objects[0].get_integer(&mut env).unwrap(), 1);
}

#[test]
fn next_after_no_more() {
    let mut env = jvm().attach_current_thread().unwrap();
    let int_class = Class::Integer(&mut env).unwrap();
    let list = List::arraylist(&mut env, int_class).unwrap();
    let value = Object::new_integer_object(&mut env, 8).unwrap();
    list.add(&mut env, &value).unwrap();

    let iterator = list.iterator(&mut env).unwrap();
    assert!(iterator.next_after(&mut env, false).unwrap().is_none());
    // The cursor did not move: the element is still there.
    let next = iterator.next(&mut env).unwrap().unwrap();
    assert_eq!(next.get_integer(&mut env).unwrap(), 8);
    assert!(iterator.next(&mut env).unwrap().is_none());
}

#[test]
fn read_prefix_of_array() {
    let env = jvm().attach_current_thread().unwrap();
    let arr = Primitive::new_int_array(&env, &[4, 5, 6]).unwrap();
    assert_eq!(Primitive::read_int_array(&env, &arr, 2).unwrap(), vec![4, 5]);
    assert!(Primitive::read_int_array(&env, &arr, -1).unwrap().is_empty());
    let arr = Primitive::new_byte_array(&env, &[200, 1]).unwrap();
    assert_eq!(Primitive::read_byte_array(&env, &arr, 2).unwrap(), vec![200, 1]);
}
