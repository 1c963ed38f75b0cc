//! `java.util.Map.Entry`, with the classes of its key and value.
use crate::class::Class;
use crate::error::{foreign, BridgeError};
use crate::object::{nullable, Object};
use crate::methods::{invoke, JavaMethod};
use jni::JNIEnv;
use vstd::prelude::*;

verus! {

/// Wrapper around Map.Entry
#[derive(Debug)]
pub struct MapEntry<'local> {
    /// The Map.Entry itself
    pub inner: Object<'local>,
    /// The key Class
    pub k_class: Class,
    /// The value Class
    pub v_class: Class,
}

impl<'local> MapEntry<'local> {
    /// Create a new Map.Entry wrapper. The caller must guarantee that `object` implements
    /// Map.Entry and is not null.
    pub fn new(object: Object<'local>, k_class: Class, v_class: Class) -> (r: Self)
        ensures
            r.inner.class@ == object.class@,
            r.k_class@ == k_class@,
            r.v_class@ == v_class@,
    {
        MapEntry { inner: object, k_class, v_class }
    }

    /// Returns the key corresponding to this entry, declared of the key class; `None` when
    /// it is `null`.
    pub fn get_key(&self, env: &mut JNIEnv<'local>) -> (r: Result<Option<Object<'local>>, BridgeError>)
        ensures
            r is Err ==> r->Err_0 is ForeignCall,
            r matches Ok(Some(o)) ==> o.class@ == self.k_class@,
    {
        let key = invoke(env, self.inner.as_obj(), JavaMethod::EntryGetKey, &[])?;
        nullable(env, key, self.k_class.clone())
    }

    /// Returns the value corresponding to this entry, declared of the value class; `None`
    /// when it is `null`.
    pub fn get_value(&self, env: &mut JNIEnv<'local>) -> (r: Result<Option<Object<'local>>, BridgeError>)
        ensures
            r is Err ==> r->Err_0 is ForeignCall,
            r matches Ok(Some(o)) ==> o.class@ == self.v_class@,
    {
        let value = invoke(env, self.inner.as_obj(), JavaMethod::EntryGetValue, &[])?;
        nullable(env, value, self.v_class.clone())
    }
}

} // verus!
