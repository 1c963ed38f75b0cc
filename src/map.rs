//! `java.util.Map`, with the classes of its keys and values.
use crate::class::Class;
use crate::error::{foreign, BridgeError};
use crate::object::{nullable, Object};
use crate::methods::{construct, fits_constructor, invoke, Constructor, JavaMethod};
use crate::set::JavaSet;
use jni::objects::JValue;
use jni::JNIEnv;
use vstd::prelude::*;

verus! {

/// Wrapper around `java.util.Map`
#[derive(Debug)]
pub struct JavaMap<'local> {
    /// The Map itself
    pub inner: Object<'local>,
    /// The key Class
    pub k_class: Class,
    /// The Value Class
    pub v_class: Class,
}

impl<'local> JavaMap<'local> {
    /// Create a Map wrapper from an existing Map object. The caller must guarantee that
    /// `object` implements Map and is not null.
    pub fn new(object: Object<'local>, k_class: Class, v_class: Class) -> (r: Self)
        ensures
            r.inner.class@ == object.class@,
            r.k_class@ == k_class@,
            r.v_class@ == v_class@,
    {
        JavaMap { inner: object, k_class, v_class }
    }

    /// A new `java.util.HashMap` built by the constructor `ctor` from `args`, which fit it.
    fn new_hashmap(env: &mut JNIEnv<'local>, k_class: Class, v_class: Class, ctor: Constructor, args: &[JValue]) -> (r:
        Result<Self, BridgeError>)
        requires
            fits_constructor(ctor, args@),
        ensures
            r is Ok ==> r->Ok_0.inner.class@ == "java/util/HashMap"@,
            r is Ok ==> r->Ok_0.k_class@ == k_class@ && r->Ok_0.v_class@ == v_class@,
            r is Err ==> r->Err_0 is ForeignCall || r->Err_0 is ClassNotFound,
    {
        let map_class = Class::HashMap(env)?;
        let hashmap = construct(env, map_class.global(), ctor, args)?;
        Ok(JavaMap { inner: Object::new(env, hashmap, map_class), k_class, v_class })
    }

    /// Constructs an empty HashMap with the default initial capacity (16) and the default
    /// load factor (0.75).
    pub fn hashmap(env: &mut JNIEnv<'local>, k_class: Class, v_class: Class) -> (r: Result<Self, BridgeError>)
        ensures
            r is Ok ==> r->Ok_0.inner.class@ == "java/util/HashMap"@,
            r is Ok ==> r->Ok_0.k_class@ == k_class@ && r->Ok_0.v_class@ == v_class@,
            r is Err ==> r->Err_0 is ForeignCall || r->Err_0 is ClassNotFound,
    {
        Self::new_hashmap(env, k_class, v_class, Constructor::NoArgs, &[])
    }

    /// Constructs an empty HashMap with the specified initial capacity and the default load
    /// factor (0.75).
    pub fn hashmap_with_capacity(
        env: &mut JNIEnv<'local>,
        k_class: Class,
        v_class: Class,
        initial_capacity: i32,
    ) -> (r: Result<Self, BridgeError>)
        ensures
            r is Ok ==> r->Ok_0.inner.class@ == "java/util/HashMap"@,
            r is Ok ==> r->Ok_0.k_class@ == k_class@ && r->Ok_0.v_class@ == v_class@,
            r is Err ==> r->Err_0 is ForeignCall || r->Err_0 is ClassNotFound,
    {
        let args = [JValue::Int(initial_capacity)];
        Self::new_hashmap(env, k_class, v_class, Constructor::Int, &args)
    }

    /// Associates the specified value with the specified key in this map (optional
    /// operation). Returns the value it replaced, declared of the value class; `None` when
    /// there was none or it was `null`.
    pub fn put(&self, env: &mut JNIEnv<'local>, key: &Object<'local>, value: &Object<'local>) -> (r:
        Result<Option<Object<'local>>, BridgeError>)
        ensures
            r is Err ==> r->Err_0 is ForeignCall,
            r matches Ok(Some(o)) ==> o.class@ == self.v_class@,
    {
        let args = [key.as_value(), value.as_value()];
        let prev_value = invoke(env, self.inner.as_obj(), JavaMethod::MapPut, &args)?;
        nullable(env, prev_value, self.v_class.clone())
    }

    /// Returns the value to which the specified key is mapped, declared of the value class;
    /// `None` when there is no mapping for the key or it maps to `null`.
    pub fn get(&self, env: &mut JNIEnv<'local>, key: &Object<'local>) -> (r: Result<
        Option<Object<'local>>,
        BridgeError,
    >)
        ensures
            r is Err ==> r->Err_0 is ForeignCall,
            r matches Ok(Some(o)) ==> o.class@ == self.v_class@,
    {
        let args = [key.as_value()];
        let value = invoke(env, self.inner.as_obj(), JavaMethod::MapGet, &args)?;
        nullable(env, value, self.v_class.clone())
    }

    /// Returns true if this map contains no key-value mappings.
    pub fn is_empty(&self, env: &mut JNIEnv<'local>) -> (r: Result<bool, BridgeError>)
        ensures
            r is Err ==> r->Err_0 is ForeignCall,
    {
        let is_empty = invoke(env, self.inner.as_obj(), JavaMethod::MapIsEmpty, &[])?;
        foreign(is_empty.z())
    }

    /// Returns the number of key-value mappings in this map.
    pub fn size(&self, env: &mut JNIEnv<'local>) -> (r: Result<i32, BridgeError>)
        ensures
            r is Err ==> r->Err_0 is ForeignCall,
    {
        let size = invoke(env, self.inner.as_obj(), JavaMethod::MapSize, &[])?;
        foreign(size.i())
    }

    /// Returns true if this map contains a mapping for the specified key.
    pub fn contains_key(&self, env: &mut JNIEnv<'local>, key: &Object<'local>) -> (r: Result<
        bool,
        BridgeError,
    >)
        ensures
            r is Err ==> r->Err_0 is ForeignCall,
    {
        let args = [key.as_value()];
        let contains_key = invoke(env, self.inner.as_obj(), JavaMethod::MapContainsKey, &args)?;
        foreign(contains_key.z())
    }

    /// Returns true if this map maps one or more keys to the specified value.
    pub fn contains_value(&self, env: &mut JNIEnv<'local>, value: &Object<'local>) -> (r: Result<
        bool,
        BridgeError,
    >)
        ensures
            r is Err ==> r->Err_0 is ForeignCall,
    {
        let args = [value.as_value()];
        let contains_value = invoke(env, self.inner.as_obj(), JavaMethod::MapContainsValue, &args)?;
        foreign(contains_value.z())
    }

    /// Removes the mapping for a key from this map if it is present (optional operation).
    /// Returns the value it mapped to, declared of the value class; `None` when there was
    /// none or it was `null`.
    pub fn remove(&self, env: &mut JNIEnv<'local>, key: &Object<'local>) -> (r: Result<
        Option<Object<'local>>,
        BridgeError,
    >)
        ensures
            r is Err ==> r->Err_0 is ForeignCall,
            r matches Ok(Some(o)) ==> o.class@ == self.v_class@,
    {
        let args = [key.as_value()];
        let removed_value = invoke(env, self.inner.as_obj(), JavaMethod::MapRemove, &args)?;
        nullable(env, removed_value, self.v_class.clone())
    }

    /// Removes the entry for the specified key only if it is currently mapped to the
    /// specified value.
    pub fn remove_if_mapped(&self, env: &mut JNIEnv<'local>, key: &Object<'local>, value: &Object<'local>) -> (r:
        Result<bool, BridgeError>)
        ensures
            r is Err ==> r->Err_0 is ForeignCall,
    {
        let args = [key.as_value(), value.as_value()];
        let removed = invoke(env, self.inner.as_obj(), JavaMethod::MapRemoveIfMapped, &args)?;
        foreign(removed.z())
    }

    /// Returns a Set<Map.Entry<K, V>> view of the mappings contained in this map.
    pub fn entry_set(&self, env: &mut JNIEnv<'local>) -> (r: Result<JavaSet<'local>, BridgeError>)
        ensures
            r is Ok ==> r->Ok_0.inner.class@ == "java/util/Set"@,
            r is Ok ==> r->Ok_0.class@ == "java/util/Map$Entry"@,
            r is Err ==> r->Err_0 is ForeignCall || r->Err_0 is ClassNotFound,
    {
        let entry_set = invoke(env, self.inner.as_obj(), JavaMethod::MapEntrySet, &[])?;
        let entry_set = foreign(entry_set.l())?;
        let set_class = Class::Set_(env)?;
        let object = Object::new(env, entry_set, set_class);
        let entry_class = Class::MapEntry(env)?;
        Ok(JavaSet::new(object, entry_class))
    }

    /// Removes all of the mappings from this map.
    pub fn clear(&self, env: &mut JNIEnv<'local>) -> (r: Result<(), BridgeError>)
        ensures
            r is Err ==> r->Err_0 is ForeignCall,
    {
        invoke(env, self.inner.as_obj(), JavaMethod::MapClear, &[])?;
        Ok(())
    }
}

} // verus!
