//! `java.lang.String` and conversions to and from host strings.
use crate::class::Class;
use crate::error::{foreign, BridgeError};
use crate::object::Object;
use crate::runtime::{auto_local, get_string, guarded, is_null, new_string, null_ref};
use jni::objects::{JValue, JValueGen, JValueOwned};
use jni::JNIEnv;
use vstd::prelude::*;

verus! {

/// A wrapper for a java.lang.String
#[derive(Debug)]
pub struct JavaString<'local> {
    /// The string object.
    pub inner: Object<'local>,
}

/// The host string in `value`, a Java string that a runtime call returned; `None` when it
/// returned `null`.
pub fn string_or_none<'local>(env: &mut JNIEnv<'local>, value: JValueOwned<'local>) -> (r:
    Result<Option<String>, BridgeError>)
    ensures
        !(value is Object) ==> r is Err,
        r is Err ==> r->Err_0 is ForeignCall,
        value matches JValueGen::Object(o) ==> (null_ref(o) ==> r matches Ok(None)),
        value matches JValueGen::Object(o) ==> (!null_ref(o) ==> (r is Err || r matches Ok(Some(_)))),
{
    let obj = foreign(value.l())?;
    if is_null(&obj) {
        return Ok(None);
    }
    let obj = auto_local(env, obj);
    Ok(Some(foreign(get_string(env, guarded(&obj)))?))
}

impl<'local> JavaString<'local> {
    /// Create a JavaString wrapper. The caller must guarantee that `object` is a
    /// java.lang.String and is not null.
    pub fn new(object: Object<'local>) -> (r: Self)
        ensures
            r.inner.class@ == object.class@,
    {
        JavaString { inner: object }
    }

    /// Turn a Rust string into a JavaString
    pub fn from_rust(env: &mut JNIEnv<'local>, s: &str) -> (r: Result<Self, BridgeError>)
        ensures
            r is Ok ==> r->Ok_0.inner.class@ == "java/lang/String"@,
            r is Err ==> r->Err_0 is ForeignCall || r->Err_0 is ClassNotFound,
    {
        let class = Class::String(env)?;
        let string = foreign(new_string(env, s))?;
        Ok(Self::new(Object::new(env, string, class)))
    }

    /// Turn a JavaString into a Rust String
    pub fn into_rust(&self, env: &mut JNIEnv<'local>) -> (r: Result<String, BridgeError>)
        ensures
            r is Err ==> r->Err_0 is ForeignCall,
    {
        foreign(get_string(env, self.inner.as_obj()))
    }

    /// The string as an argument of a runtime call.
    pub fn as_value(&self) -> JValue<'local, '_> {
        self.inner.as_value()
    }
}

} // verus!
