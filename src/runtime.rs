//! The calls into the `jni` crate, each behind a contract that the rest of the
//! library is verified against.
//!
//! What the Java runtime does inside a call (which method runs, what it
//! returns, whether it throws) depends on the state of that runtime, so the
//! wrappers below promise nothing about the outcome of a runtime call. The
//! conversions that the `jni` crate performs itself get exact contracts:
//! `JValueGen::l`, `z`, `b`, `c`, `s`, `i` and `j` give the value of their
//! variant and an error for any other, and `z` reads 1 as `true`. Whether a
//! reference is Java's `null` is named `null_ref`.
use jni::objects::{
    AutoLocal, GlobalRef, JBooleanArray, JByteArray, JCharArray, JClass, JIntArray, JLongArray,
    JObject, JObjectArray, JShortArray, JString, JValue, JValueGen, JValueOwned,
};
use jni::JNIEnv;
use vstd::prelude::*;

verus! {

#[verifier::external_type_specification]
#[verifier::external_body]
pub struct ExJNIEnv<'local>(JNIEnv<'local>);

#[verifier::external_type_specification]
#[verifier::external_body]
pub struct ExJObject<'local>(JObject<'local>);

/// The pointee of a raw object reference; `JObject` dereferences to a pointer to it.
#[verifier::external_type_specification]
#[verifier::external_body]
pub struct ExRawObject(jni::sys::_jobject);

#[verifier::external_type_specification]
#[verifier::external_body]
pub struct ExJClass<'local>(JClass<'local>);

#[verifier::external_type_specification]
#[verifier::external_body]
pub struct ExGlobalRef(GlobalRef);

#[verifier::external_type_specification]
#[verifier::external_body]
#[verifier::reject_recursive_types(T)]
pub struct ExAutoLocal<'local, T: Into<JObject<'local>>>(AutoLocal<'local, T>);

#[verifier::external_type_specification]
#[verifier::external_body]
pub struct ExJniError(jni::errors::Error);

/// The value a Java method call returns; Verus sees its variants.
#[verifier::external_type_specification]
#[verifier::reject_recursive_types(O)]
pub struct ExJValueGen<O>(JValueGen<O>);

/// Relies on `JValueGen::l`: the object of an `Object` value, an error for any other variant.
pub assume_specification<O>[ JValueGen::<O>::l ](v: JValueGen<O>) -> (r: Result<O, jni::errors::Error>)
    ensures
        r is Ok <==> v is Object,
        v matches JValueGen::Object(x) ==> r->Ok_0 == x,
;

/// Relies on `JValueGen::z`: a `Bool` value is true exactly when it holds `JNI_TRUE` (1).
pub assume_specification<O>[ JValueGen::<O>::z ](v: JValueGen<O>) -> (r: Result<bool, jni::errors::Error>)
    ensures
        r is Ok <==> v is Bool,
        v matches JValueGen::Bool(b) ==> r->Ok_0 == (b == 1),
;

/// Relies on `JValueGen::b`: the byte of a `Byte` value.
pub assume_specification<O>[ JValueGen::<O>::b ](v: JValueGen<O>) -> (r: Result<i8, jni::errors::Error>)
    ensures
        r is Ok <==> v is Byte,
        v matches JValueGen::Byte(x) ==> r->Ok_0 == x,
;

/// Relies on `JValueGen::c`: the UTF-16 code unit of a `Char` value.
pub assume_specification<O>[ JValueGen::<O>::c ](v: JValueGen<O>) -> (r: Result<u16, jni::errors::Error>)
    ensures
        r is Ok <==> v is Char,
        v matches JValueGen::Char(x) ==> r->Ok_0 == x,
;

/// Relies on `JValueGen::s`: the short of a `Short` value.
pub assume_specification<O>[ JValueGen::<O>::s ](v: JValueGen<O>) -> (r: Result<i16, jni::errors::Error>)
    ensures
        r is Ok <==> v is Short,
        v matches JValueGen::Short(x) ==> r->Ok_0 == x,
;

/// Relies on `JValueGen::i`: the int of an `Int` value.
pub assume_specification<O>[ JValueGen::<O>::i ](v: JValueGen<O>) -> (r: Result<i32, jni::errors::Error>)
    ensures
        r is Ok <==> v is Int,
        v matches JValueGen::Int(x) ==> r->Ok_0 == x,
;

/// Relies on `JValueGen::j`: the long of a `Long` value.
pub assume_specification<O>[ JValueGen::<O>::j ](v: JValueGen<O>) -> (r: Result<i64, jni::errors::Error>)
    ensures
        r is Ok <==> v is Long,
        v matches JValueGen::Long(x) ==> r->Ok_0 == x,
;

/// Relies on `GlobalRef`'s derived `Clone`: another handle to the same global reference.
pub assume_specification[ <GlobalRef as Clone>::clone ](g: &GlobalRef) -> GlobalRef;

/// Whether a reference is Java's `null`; it depends on the reference alone.
pub uninterp spec fn null_ref(obj: JObject) -> bool;

/// Relies on dereferencing a `JObject` to its raw pointer and `<*mut _>::is_null`: whether
/// the reference is Java's `null`.
#[verifier::external_body]
pub(crate) fn is_null(obj: &JObject) -> (r: bool)
    ensures
        r == null_ref(*obj),
{
    obj.is_null()
}

/// Relies on `JNIEnv::auto_local`: the reference is deleted when the guard is dropped.
#[verifier::external_body]
pub(crate) fn auto_local<'local>(env: &JNIEnv<'local>, obj: JObject<'local>) -> AutoLocal<
    'local,
    JObject<'local>,
> {
    env.auto_local(obj)
}

/// Relies on `Deref` of `AutoLocal`: the reference that the guard holds.
#[verifier::external_body]
pub(crate) fn guarded<'a, 'local>(guard: &'a AutoLocal<'local, JObject<'local>>) -> &'a JObject<
    'local,
> {
    &**guard
}

/// Relies on `JNIEnv::find_class`: resolves a class from its slash-separated name.
#[verifier::external_body]
pub(crate) fn find_class<'local>(env: &mut JNIEnv<'local>, name: &str) -> Result<
    JObject<'local>,
    jni::errors::Error,
> {
    env.find_class(name).map(JObject::from)
}

/// Relies on `JNIEnv::exception_clear`: clears the exception a failed call left pending.
#[verifier::external_body]
pub(crate) fn exception_clear(env: &JNIEnv) -> Result<(), jni::errors::Error> {
    env.exception_clear()
}

/// Relies on `JNIEnv::new_global_ref`: a reference that outlives the local frame.
#[verifier::external_body]
pub(crate) fn new_global_ref(env: &JNIEnv, obj: &JObject) -> Result<GlobalRef, jni::errors::Error> {
    env.new_global_ref(obj)
}

/// Relies on `GlobalRef::as_obj`: the object that a global reference refers to.
#[verifier::external_body]
pub(crate) fn global_object(global: &GlobalRef) -> &JObject<'static> {
    global.as_obj()
}

/// Relies on `JNIEnv::delete_local_ref`: frees a local reference.
#[verifier::external_body]
pub(crate) fn delete_local_ref(env: &JNIEnv, obj: JObject) -> Result<(), jni::errors::Error> {
    env.delete_local_ref(obj)
}

/// Relies on `From<JClass> for JObject`: a class reference seen as an object reference.
#[verifier::external_body]
pub(crate) fn class_object(class: JClass) -> JObject {
    JObject::from(class)
}

/// Relies on `JNIEnv::get_object_class`: the class of an object.
#[verifier::external_body]
pub(crate) fn get_object_class<'local>(env: &JNIEnv<'local>, obj: &JObject) -> Result<
    JObject<'local>,
    jni::errors::Error,
> {
    env.get_object_class(obj).map(JObject::from)
}

/// Relies on `JNIEnv::get_superclass`: `None` for `java.lang.Object` and for interfaces.
#[verifier::external_body]
pub(crate) fn get_superclass<'local>(env: &mut JNIEnv<'local>, class: &GlobalRef) -> Result<
    Option<JObject<'local>>,
    jni::errors::Error,
> {
    env.get_superclass(class).map(|c| c.map(JObject::from))
}

/// Relies on `JNIEnv::is_assignable_from`: whether `from` can be cast to `to`.
#[verifier::external_body]
pub(crate) fn is_assignable_from(env: &mut JNIEnv, from: &GlobalRef, to: &GlobalRef) -> Result<
    bool,
    jni::errors::Error,
> {
    env.is_assignable_from(from, to)
}

/// Relies on `JNIEnv::is_instance_of`: whether the object is an instance of the class.
#[verifier::external_body]
pub(crate) fn is_instance_of(env: &mut JNIEnv, obj: &JObject, class: &GlobalRef) -> Result<
    bool,
    jni::errors::Error,
> {
    env.is_instance_of(obj, class)
}

/// Relies on `JNIEnv::call_method`: invokes an instance method by name and signature.
#[verifier::external_body]
pub(crate) fn call_method<'local>(
    env: &mut JNIEnv<'local>,
    obj: &JObject,
    name: &str,
    sig: &str,
    args: &[JValue],
) -> Result<JValueOwned<'local>, jni::errors::Error> {
    env.call_method(obj, name, sig, args)
}

/// Relies on `JNIEnv::call_static_method`: invokes a static method by name and signature.
#[verifier::external_body]
pub(crate) fn call_static_method<'local>(
    env: &mut JNIEnv<'local>,
    class: &GlobalRef,
    name: &str,
    sig: &str,
    args: &[JValue],
) -> Result<JValueOwned<'local>, jni::errors::Error> {
    env.call_static_method(class, name, sig, args)
}

/// Relies on `JNIEnv::new_object`: runs the constructor of the given signature.
#[verifier::external_body]
pub(crate) fn new_object<'local>(
    env: &mut JNIEnv<'local>,
    class: &GlobalRef,
    ctor_sig: &str,
    args: &[JValue],
) -> Result<JObject<'local>, jni::errors::Error> {
    env.new_object(class, ctor_sig, args)
}

/// Relies on `JNIEnv::new_string`: a Java string with the given contents.
#[verifier::external_body]
pub(crate) fn new_string<'local>(env: &JNIEnv<'local>, s: &str) -> Result<
    JObject<'local>,
    jni::errors::Error,
> {
    env.new_string(s).map(JObject::from)
}

/// Relies on `JNIEnv::get_string`: the contents of a Java string, an error for another object.
#[verifier::external_body]
pub(crate) fn get_string(env: &mut JNIEnv, obj: &JObject) -> Result<String, jni::errors::Error> {
    env.get_string(<&JString>::from(obj)).map(String::from)
}

/// Relies on `JNIEnv::new_object_array`: an array of the given length, every slot `null`.
#[verifier::external_body]
pub(crate) fn new_object_array<'local>(env: &mut JNIEnv<'local>, len: i32, class: &GlobalRef) -> Result<
    JObject<'local>,
    jni::errors::Error,
> {
    env.new_object_array(len, class, JObject::null()).map(JObject::from)
}

/// Relies on `JNIEnv::set_object_array_element`: stores one element of an object array.
#[verifier::external_body]
pub(crate) fn set_object_array_element(
    env: &JNIEnv,
    array: &JObject,
    index: i32,
    value: &JObject,
) -> Result<(), jni::errors::Error> {
    env.set_object_array_element(<&JObjectArray>::from(array), index, value)
}

/// Relies on `JNIEnv::get_array_length`: the length of an array. The length does not depend
/// on the element type, so the array is viewed as an `int[]` only to name a `jni` array type.
#[verifier::external_body]
pub(crate) fn get_array_length(env: &JNIEnv, array: &JObject) -> Result<i32, jni::errors::Error> {
    env.get_array_length(<&JIntArray>::from(array))
}

/// Relies on `JNIEnv::new_int_array`: a Java `int[]` of the given length.
#[verifier::external_body]
pub(crate) fn new_int_array<'local>(env: &JNIEnv<'local>, len: i32) -> Result<
    JObject<'local>,
    jni::errors::Error,
> {
    env.new_int_array(len).map(JObject::from)
}

/// Relies on `JNIEnv::set_int_array_region`: copies the whole buffer into the array from index 0.
#[verifier::external_body]
pub(crate) fn set_int_array_region(env: &JNIEnv, array: &JObject, buf: &[i32]) -> Result<
    (),
    jni::errors::Error,
> {
    env.set_int_array_region(<&JIntArray>::from(array), 0, buf)
}

/// Relies on `JNIEnv::get_int_array_region`: fills the buffer from index 0 of the array; a
/// slice cannot change its length.
#[verifier::external_body]
pub(crate) fn get_int_array_region(env: &JNIEnv, array: &JObject, buf: &mut Vec<i32>) -> (r: Result<
    (),
    jni::errors::Error,
>)
    ensures
        final(buf)@.len() == old(buf)@.len(),
{
    env.get_int_array_region(<&JIntArray>::from(array), 0, buf)
}

/// Relies on `JNIEnv::new_byte_array`: a Java `byte[]` of the given length.
#[verifier::external_body]
pub(crate) fn new_byte_array<'local>(env: &JNIEnv<'local>, len: i32) -> Result<
    JObject<'local>,
    jni::errors::Error,
> {
    env.new_byte_array(len).map(JObject::from)
}

/// Relies on `JNIEnv::set_byte_array_region`: copies the whole buffer into the array from index 0.
#[verifier::external_body]
pub(crate) fn set_byte_array_region(env: &JNIEnv, array: &JObject, buf: &[i8]) -> Result<
    (),
    jni::errors::Error,
> {
    env.set_byte_array_region(<&JByteArray>::from(array), 0, buf)
}

/// Relies on `JNIEnv::get_byte_array_region`: fills the buffer from index 0 of the array; a
/// slice cannot change its length.
#[verifier::external_body]
pub(crate) fn get_byte_array_region(env: &JNIEnv, array: &JObject, buf: &mut Vec<i8>) -> (r: Result<
    (),
    jni::errors::Error,
>)
    ensures
        final(buf)@.len() == old(buf)@.len(),
{
    env.get_byte_array_region(<&JByteArray>::from(array), 0, buf)
}

/// Relies on `JNIEnv::new_long_array`: a Java `long[]` of the given length.
#[verifier::external_body]
pub(crate) fn new_long_array<'local>(env: &JNIEnv<'local>, len: i32) -> Result<
    JObject<'local>,
    jni::errors::Error,
> {
    env.new_long_array(len).map(JObject::from)
}

/// Relies on `JNIEnv::set_long_array_region`: copies the whole buffer into the array from index 0.
#[verifier::external_body]
pub(crate) fn set_long_array_region(env: &JNIEnv, array: &JObject, buf: &[i64]) -> Result<
    (),
    jni::errors::Error,
> {
    env.set_long_array_region(<&JLongArray>::from(array), 0, buf)
}

/// Relies on `JNIEnv::get_long_array_region`: fills the buffer from index 0 of the array; a
/// slice cannot change its length.
#[verifier::external_body]
pub(crate) fn get_long_array_region(env: &JNIEnv, array: &JObject, buf: &mut Vec<i64>) -> (r: Result<
    (),
    jni::errors::Error,
>)
    ensures
        final(buf)@.len() == old(buf)@.len(),
{
    env.get_long_array_region(<&JLongArray>::from(array), 0, buf)
}

/// Relies on `JNIEnv::new_char_array`: a Java `char[]` of the given length.
#[verifier::external_body]
pub(crate) fn new_char_array<'local>(env: &JNIEnv<'local>, len: i32) -> Result<
    JObject<'local>,
    jni::errors::Error,
> {
    env.new_char_array(len).map(JObject::from)
}

/// Relies on `JNIEnv::set_char_array_region`: copies the whole buffer into the array from index 0.
#[verifier::external_body]
pub(crate) fn set_char_array_region(env: &JNIEnv, array: &JObject, buf: &[u16]) -> Result<
    (),
    jni::errors::Error,
> {
    env.set_char_array_region(<&JCharArray>::from(array), 0, buf)
}

/// Relies on `JNIEnv::get_char_array_region`: fills the buffer from index 0 of the array; a
/// slice cannot change its length.
#[verifier::external_body]
pub(crate) fn get_char_array_region(env: &JNIEnv, array: &JObject, buf: &mut Vec<u16>) -> (r: Result<
    (),
    jni::errors::Error,
>)
    ensures
        final(buf)@.len() == old(buf)@.len(),
{
    env.get_char_array_region(<&JCharArray>::from(array), 0, buf)
}

/// Relies on `JNIEnv::new_short_array`: a Java `short[]` of the given length.
#[verifier::external_body]
pub(crate) fn new_short_array<'local>(env: &JNIEnv<'local>, len: i32) -> Result<
    JObject<'local>,
    jni::errors::Error,
> {
    env.new_short_array(len).map(JObject::from)
}

/// Relies on `JNIEnv::set_short_array_region`: copies the whole buffer into the array from index 0.
#[verifier::external_body]
pub(crate) fn set_short_array_region(env: &JNIEnv, array: &JObject, buf: &[i16]) -> Result<
    (),
    jni::errors::Error,
> {
    env.set_short_array_region(<&JShortArray>::from(array), 0, buf)
}

/// Relies on `JNIEnv::get_short_array_region`: fills the buffer from index 0 of the array; a
/// slice cannot change its length.
#[verifier::external_body]
pub(crate) fn get_short_array_region(env: &JNIEnv, array: &JObject, buf: &mut Vec<i16>) -> (r: Result<
    (),
    jni::errors::Error,
>)
    ensures
        final(buf)@.len() == old(buf)@.len(),
{
    env.get_short_array_region(<&JShortArray>::from(array), 0, buf)
}

/// Relies on `JNIEnv::new_boolean_array`: a Java `boolean[]` of the given length.
#[verifier::external_body]
pub(crate) fn new_boolean_array<'local>(env: &JNIEnv<'local>, len: i32) -> Result<
    JObject<'local>,
    jni::errors::Error,
> {
    env.new_boolean_array(len).map(JObject::from)
}

/// Relies on `JNIEnv::set_boolean_array_region`: copies the whole buffer into the array from index 0.
#[verifier::external_body]
pub(crate) fn set_boolean_array_region(env: &JNIEnv, array: &JObject, buf: &[u8]) -> Result<
    (),
    jni::errors::Error,
> {
    env.set_boolean_array_region(<&JBooleanArray>::from(array), 0, buf)
}

/// Relies on `JNIEnv::get_boolean_array_region`: fills the buffer from index 0 of the array; a
/// slice cannot change its length.
#[verifier::external_body]
pub(crate) fn get_boolean_array_region(env: &JNIEnv, array: &JObject, buf: &mut Vec<u8>) -> (r: Result<
    (),
    jni::errors::Error,
>)
    ensures
        final(buf)@.len() == old(buf)@.len(),
{
    env.get_boolean_array_region(<&JBooleanArray>::from(array), 0, buf)
}

} // verus!
