#![allow(non_snake_case)]
use ejni::{BridgeError, Class, JavaMap};
use jni::{InitArgsBuilder, JNIVersion, JavaVM};
use std::sync::OnceLock;

static JVM: OnceLock<JavaVM> = OnceLock::new();

fn jvm() -> &'static JavaVM {
    JVM.get_or_init(|| {
        let jvm_args = InitArgsBuilder::new()
            .version(JNIVersion::V8)
            .option("-Xcheck:jni")
            .build()
            .unwrap();
        JavaVM::new(jvm_args).unwrap()
    })
}

#[test]
fn Byte() {
    let mut env = jvm().attach_current_thread().unwrap();
    assert!(Class::Byte(&mut env).is_ok());
}

#[test]
fn Boolean() {
    let mut env = jvm().attach_current_thread().unwrap();
    assert!(Class::Boolean(&mut env).is_ok());
}

#[test]
fn Float() {
    let mut env = jvm().attach_current_thread().unwrap();
    assert!(Class::Float(&mut env).is_ok());
}

#[test]
fn Integer() {
    let mut env = jvm().attach_current_thread().unwrap();
    assert!(Class::Integer(&mut env).is_ok());
}

#[test]
fn Double() {
    let mut env = jvm().attach_current_thread().unwrap();
    assert!(Class::Double(&mut env).is_ok());
}

#[test]
fn Short() {
    let mut env = jvm().attach_current_thread().unwrap();
    assert!(Class::Short(&mut env).is_ok());
}

#[test]
fn Character() {
    let mut env = jvm().attach_current_thread().unwrap();
    assert!(Class::Character(&mut env).is_ok());
}

#[test]
fn Long() {
    let mut env = jvm().attach_current_thread().unwrap();
    assert!(Class::Long(&mut env).is_ok());
}

#[test]
fn Object() {
    let mut env = jvm().attach_current_thread().unwrap();
    assert!(Class::Object(&mut env).is_ok());
}

#[test]
fn Class_() {
    let mut env = jvm().attach_current_thread().unwrap();
    assert!(Class::Class(&mut env).is_ok());
}

#[test]
fn System() {
    let mut env = jvm().attach_current_thread().unwrap();
    assert!(Class::System(&mut env).is_ok());
}

#[test]
fn CharSequence() {
    let mut env = jvm().attach_current_thread().unwrap();
    assert!(Class::CharSequence(&mut env).is_ok());
}

#[test]
fn Math() {
    let mut env = jvm().attach_current_thread().unwrap();
    assert!(Class::Math(&mut env).is_ok());
}

#[test]
fn Record() {
    let mut env = jvm().attach_current_thread().unwrap();
    assert!(Class::Record(&mut env).is_ok());
}

#[test]
fn String() {
    let mut env = jvm().attach_current_thread().unwrap();
    assert!(Class::String(&mut env).is_ok());
}

#[test]
fn StringBuilder() {
    let mut env = jvm().attach_current_thread().unwrap();
    assert!(Class::StringBuilder(&mut env).is_ok());
}

#[test]
fn BigDecimal() {
    let mut env = jvm().attach_current_thread().unwrap();
    assert!(Class::BigDecimal(&mut env).is_ok());
}

#[test]
fn BigInteger() {
    let mut env = jvm().attach_current_thread().unwrap();
    assert!(Class::BigInteger(&mut env).is_ok());
}

#[test]
fn Array() {
    let mut env = jvm().attach_current_thread().unwrap();
    assert!(Class::Array(&mut env).is_ok());
}

#[test]
fn Field() {
    let mut env = jvm().attach_current_thread().unwrap();
    assert!(Class::Field(&mut env).is_ok());
}

#[test]
fn Method() {
    let mut env = jvm().attach_current_thread().unwrap();
    assert!(Class::Method(&mut env).is_ok());
}

#[test]
fn Constructor() {
    let mut env = jvm().attach_current_thread().unwrap();
    assert!(Class::Constructor(&mut env).is_ok());
}

#[test]
fn Uuid() {
    let mut env = jvm().attach_current_thread().unwrap();
    assert!(Class::Uuid(&mut env).is_ok());
}

#[test]
fn Vector() {
    let mut env = jvm().attach_current_thread().unwrap();
    assert!(Class::Vector(&mut env).is_ok());
}

#[test]
fn MapEntry() {
    let mut env = jvm().attach_current_thread().unwrap();
    assert!(Class::MapEntry(&mut env).is_ok());
}

#[test]
fn Set_() {
    let mut env = jvm().attach_current_thread().unwrap();
    assert!(Class::Set_(&mut env).is_ok());
}

#[test]
fn Scanner() {
    let mut env = jvm().attach_current_thread().unwrap();
    assert!(Class::Scanner(&mut env).is_ok());
}

#[test]
fn Queue() {
    let mut env = jvm().attach_current_thread().unwrap();
    assert!(Class::Queue(&mut env).is_ok());
}

#[test]
fn Random() {
    let mut env = jvm().attach_current_thread().unwrap();
    assert!(Class::Random(&mut env).is_ok());
}

#[test]
fn Properties() {
    let mut env = jvm().attach_current_thread().unwrap();
    assert!(Class::Properties(&mut env).is_ok());
}

#[test]
fn Optional() {
    let mut env = jvm().attach_current_thread().unwrap();
    assert!(Class::Optional(&mut env).is_ok());
}

#[test]
fn Objects() {
    let mut env = jvm().attach_current_thread().unwrap();
    assert!(Class::Objects(&mut env).is_ok());
}

#[test]
fn Map_() {
    let mut env = jvm().attach_current_thread().unwrap();
    assert!(Class::Map_(&mut env).is_ok());
}

#[test]
fn Locale() {
    let mut env = jvm().attach_current_thread().unwrap();
    assert!(Class::Locale(&mut env).is_ok());
}

#[test]
fn List() {
    let mut env = jvm().attach_current_thread().unwrap();
    assert!(Class::List(&mut env).is_ok());
}

#[test]
fn LinkedList() {
    let mut env = jvm().attach_current_thread().unwrap();
    assert!(Class::LinkedList(&mut env).is_ok());
}

#[test]
fn LinkedHashSet() {
    let mut env = jvm().attach_current_thread().unwrap();
    assert!(Class::LinkedHashSet(&mut env).is_ok());
}

#[test]
fn LinkedHashMap() {
    let mut env = jvm().attach_current_thread().unwrap();
    assert!(Class::LinkedHashMap(&mut env).is_ok());
}

#[test]
fn Iterator() {
    let mut env = jvm().attach_current_thread().unwrap();
    assert!(Class::Iterator(&mut env).is_ok());
}

#[test]
fn IdentityHashMap() {
    let mut env = jvm().attach_current_thread().unwrap();
    assert!(Class::IdentityHashMap(&mut env).is_ok());
}

#[test]
fn Hashtable() {
    let mut env = jvm().attach_current_thread().unwrap();
    assert!(Class::Hashtable(&mut env).is_ok());
}

#[test]
fn HashSet() {
    let mut env = jvm().attach_current_thread().unwrap();
    assert!(Class::HashSet(&mut env).is_ok());
}

#[test]
fn HashMap() {
    let mut env = jvm().attach_current_thread().unwrap();
    assert!(Class::HashMap(&mut env).is_ok());
}

#[test]
fn EnumSet() {
    let mut env = jvm().attach_current_thread().unwrap();
    assert!(Class::EnumSet(&mut env).is_ok());
}

#[test]
fn EnumMap() {
    let mut env = jvm().attach_current_thread().unwrap();
    assert!(Class::EnumMap(&mut env).is_ok());
}

#[test]
fn Enumeration() {
    let mut env = jvm().attach_current_thread().unwrap();
    assert!(Class::Enumeration(&mut env).is_ok());
}

#[test]
fn Comparator() {
    let mut env = jvm().attach_current_thread().unwrap();
    assert!(Class::Comparator(&mut env).is_ok());
}

#[test]
fn Comparators() {
    let mut env = jvm().attach_current_thread().unwrap();
    assert!(Class::Comparators(&mut env).is_ok());
}

#[test]
fn Collection() {
    let mut env = jvm().attach_current_thread().unwrap();
    assert!(Class::Collection(&mut env).is_ok());
}

#[test]
fn Base64() {
    let mut env = jvm().attach_current_thread().unwrap();
    assert!(Class::Base64(&mut env).is_ok());
}

#[test]
fn Arrays() {
    let mut env = jvm().attach_current_thread().unwrap();
    assert!(Class::Arrays(&mut env).is_ok());
}

#[test]
fn ArrayList() {
    let mut env = jvm().attach_current_thread().unwrap();
    assert!(Class::ArrayList(&mut env).is_ok());
}

#[test]
fn AtomicInteger() {
    let mut env = jvm().attach_current_thread().unwrap();
    assert!(Class::AtomicInteger(&mut env).is_ok());
}

#[test]
fn AtomicLong() {
    let mut env = jvm().attach_current_thread().unwrap();
    assert!(Class::AtomicLong(&mut env).is_ok());
}

#[test]
fn AtomicReference() {
    let mut env = jvm().attach_current_thread().unwrap();
    assert!(Class::AtomicReference(&mut env).is_ok());
}

#[test]
fn AtomicIntegerArray() {
    let mut env = jvm().attach_current_thread().unwrap();
    assert!(Class::AtomicIntegerArray(&mut env).is_ok());
}

#[test]
fn AtomicIntegerFieldUpdater() {
    let mut env = jvm().attach_current_thread().unwrap();
    assert!(Class::AtomicIntegerFieldUpdater(&mut env).is_ok());
}

#[test]
fn AtomicLongArray() {
    let mut env = jvm().attach_current_thread().unwrap();
    assert!(Class::AtomicLongArray(&mut env).is_ok());
}

#[test]
fn AtomicLongFieldUpdater() {
    let mut env = jvm().attach_current_thread().unwrap();
    assert!(Class::AtomicLongFieldUpdater(&mut env).is_ok());
}

#[test]
fn AtomicMarkableReference() {
    let mut env = jvm().attach_current_thread().unwrap();
    assert!(Class::AtomicMarkableReference(&mut env).is_ok());
}

#[test]
fn AtomicReferenceArray() {
    let mut env = jvm().attach_current_thread().unwrap();
    assert!(Class::AtomicReferenceArray(&mut env).is_ok());
}

#[test]
fn AtomicReferenceFieldUpdater() {
    let mut env = jvm().attach_current_thread().unwrap();
    assert!(Class::AtomicReferenceFieldUpdater(&mut env).is_ok());
}

#[test]
fn DoubleAccumulator() {
    let mut env = jvm().attach_current_thread().unwrap();
    assert!(Class::DoubleAccumulator(&mut env).is_ok());
}

#[test]
fn DoubleAdder() {
    let mut env = jvm().attach_current_thread().unwrap();
    assert!(Class::DoubleAdder(&mut env).is_ok());
}

#[test]
fn LongAccumulator() {
    let mut env = jvm().attach_current_thread().unwrap();
    assert!(Class::LongAccumulator(&mut env).is_ok());
}

#[test]
fn LongAdder() {
    let mut env = jvm().attach_current_thread().unwrap();
    assert!(Class::LongAdder(&mut env).is_ok());
}

#[test]
fn Striped64() {
    let mut env = jvm().attach_current_thread().unwrap();
    assert!(Class::Striped64(&mut env).is_ok());
}

#[test]
fn Future() {
    let mut env = jvm().attach_current_thread().unwrap();
    assert!(Class::Future(&mut env).is_ok());
}

#[test]
fn TimeUnit() {
    let mut env = jvm().attach_current_thread().unwrap();
    assert!(Class::TimeUnit(&mut env).is_ok());
}

#[test]
fn Pattern() {
    let mut env = jvm().attach_current_thread().unwrap();
    assert!(Class::Pattern(&mut env).is_ok());
}

#[test]
fn Matcher() {
    let mut env = jvm().attach_current_thread().unwrap();
    assert!(Class::Matcher(&mut env).is_ok());
}

#[test]
fn Duration() {
    let mut env = jvm().attach_current_thread().unwrap();
    assert!(Class::Duration(&mut env).is_ok());
}

#[test]
fn Instant() {
    let mut env = jvm().attach_current_thread().unwrap();
    assert!(Class::Instant(&mut env).is_ok());
}

#[test]
fn File() {
    let mut env = jvm().attach_current_thread().unwrap();
    assert!(Class::File(&mut env).is_ok());
}

#[test]
fn InputStream() {
    let mut env = jvm().attach_current_thread().unwrap();
    assert!(Class::InputStream(&mut env).is_ok());
}

#[test]
fn OutputStream() {
    let mut env = jvm().attach_current_thread().unwrap();
    assert!(Class::OutputStream(&mut env).is_ok());
}

#[test]
fn Unsafe() {
    let mut env = jvm().attach_current_thread().unwrap();
    assert!(Class::Unsafe(&mut env).is_ok());
}

#[test]
fn Date() {
    let mut env = jvm().attach_current_thread().unwrap();
    assert!(Class::Date(&mut env).is_ok());
}

#[test]
fn URI() {
    let mut env = jvm().attach_current_thread().unwrap();
    assert!(Class::URI(&mut env).is_ok());
}

#[test]
fn for_name_slash() {
    let mut env = jvm().attach_current_thread().unwrap();
    assert!(Class::for_name(&mut env, "java/lang/String").is_ok());
}

#[test]
fn for_name_dot() {
    let mut env = jvm().attach_current_thread().unwrap();
    assert!(Class::for_name(&mut env, "java.lang.String").is_ok());
}

#[test]
fn array_type() {
    let mut env = jvm().attach_current_thread().unwrap();
    assert!(Class::BigInteger(&mut env).unwrap().array_type(&mut env).is_ok());
}

#[test]
fn is_compatible() -> Result<(), BridgeError> {
    let mut env = jvm().attach_current_thread().unwrap();

    let k_class = Class::Object(&mut env)?;
    let v_class = Class::Object(&mut env)?;
    let hashmap = JavaMap::hashmap(&mut env, k_class, v_class)?;

    let map_class = Class::Map_(&mut env)?;
    let is_compat = hashmap.inner.class.is_compatible(&mut env, &map_class)?;
    assert!(is_compat);
    Ok(())
}

#[test]
fn int_() {
    let mut env = jvm().attach_current_thread().unwrap();
    assert!(Class::int_(&mut env).is_ok());
}

#[test]
fn long() {
    let mut env = jvm().attach_current_thread().unwrap();
    assert!(Class::long(&mut env).is_ok());
}

#[test]
fn float() {
    let mut env = jvm().attach_current_thread().unwrap();
    assert!(Class::float(&mut env).is_ok());
}

#[test]
fn double() {
    let mut env = jvm().attach_current_thread().unwrap();
    assert!(Class::double(&mut env).is_ok());
}

#[test]
fn byte() {
    let mut env = jvm().attach_current_thread().unwrap();
    assert!(Class::byte(&mut env).is_ok());
}

#[test]
fn boolean() {
    let mut env = jvm().attach_current_thread().unwrap();
    assert!(Class::boolean(&mut env).is_ok());
}

#[test]
fn char() {
    let mut env = jvm().attach_current_thread().unwrap();
    assert!(Class::char(&mut env).is_ok());
}

#[test]
fn short() {
    let mut env = jvm().attach_current_thread().unwrap();
    assert!(Class::short(&mut env).is_ok());
}
