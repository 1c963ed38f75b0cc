//! `java.util.Set`, with the class of its elements.
use crate::class::Class;
use crate::error::{foreign, BridgeError};
use crate::iterator::{all_of_class, Iterator};
use crate::object::Object;
use crate::methods::{construct, fits_constructor, invoke, Constructor, JavaMethod};
use jni::objects::JValue;
use jni::JNIEnv;
use vstd::prelude::*;

verus! {

/// Wrapper around `java.util.Set`
#[derive(Debug)]
pub struct JavaSet<'local> {
    /// The Set itself
    pub inner: Object<'local>,
    /// The Class contained in the Set
    pub class: Class,
}

impl<'local> JavaSet<'local> {
    /// Create a new Set. The caller must guarantee that `object` implements Set and is not
    /// null, and that `class` is the class of its elements.
    pub fn new(object: Object<'local>, class: Class) -> (r: Self)
        ensures
            r.inner.class@ == object.class@,
            r.class@ == class@,
    {
        JavaSet { inner: object, class }
    }

    /// A new `java.util.HashSet` built by the constructor `ctor` from `args`, which fit it.
    fn new_hashset(env: &mut JNIEnv<'local>, v_class: Class, ctor: Constructor, args: &[JValue]) -> (r:
        Result<Self, BridgeError>)
        requires
            fits_constructor(ctor, args@),
        ensures
            r is Ok ==> r->Ok_0.inner.class@ == "java/util/HashSet"@,
            r is Ok ==> r->Ok_0.class@ == v_class@,
            r is Err ==> r->Err_0 is ForeignCall || r->Err_0 is ClassNotFound,
    {
        let set_class = Class::HashSet(env)?;
        let hashset = construct(env, set_class.global(), ctor, args)?;
        Ok(JavaSet { inner: Object::new(env, hashset, set_class), class: v_class })
    }

    /// Constructs a new, empty set; the backing HashMap instance has default initial
    /// capacity (16) and load factor (0.75).
    pub fn hashset(env: &mut JNIEnv<'local>, v_class: Class) -> (r: Result<Self, BridgeError>)
        ensures
            r is Ok ==> r->Ok_0.inner.class@ == "java/util/HashSet"@,
            r is Ok ==> r->Ok_0.class@ == v_class@,
            r is Err ==> r->Err_0 is ForeignCall || r->Err_0 is ClassNotFound,
    {
        Self::new_hashset(env, v_class, Constructor::NoArgs, &[])
    }

    /// Constructs a new, empty set; the backing HashMap instance has the specified initial
    /// capacity and default load factor (0.75).
    pub fn hashset_with_capacity(env: &mut JNIEnv<'local>, v_class: Class, initial_capacity: i32) -> (r:
        Result<Self, BridgeError>)
        ensures
            r is Ok ==> r->Ok_0.inner.class@ == "java/util/HashSet"@,
            r is Ok ==> r->Ok_0.class@ == v_class@,
            r is Err ==> r->Err_0 is ForeignCall || r->Err_0 is ClassNotFound,
    {
        let args = [JValue::Int(initial_capacity)];
        Self::new_hashset(env, v_class, Constructor::Int, &args)
    }

    /// Returns the number of elements in this set (its cardinality).
    pub fn size(&self, env: &mut JNIEnv<'local>) -> (r: Result<i32, BridgeError>)
        ensures
            r is Err ==> r->Err_0 is ForeignCall,
    {
        let size = invoke(env, self.inner.as_obj(), JavaMethod::CollectionSize, &[])?;
        foreign(size.i())
    }

    /// Returns an iterator over the elements in this set.
    pub fn iterator(&self, env: &mut JNIEnv<'local>) -> (r: Result<Iterator<'local>, BridgeError>)
        ensures
            r is Ok ==> r->Ok_0.inner.class@ == "java/util/Iterator"@,
            r is Ok ==> r->Ok_0.class@ == self.class@,
            r is Err ==> r->Err_0 is ForeignCall || r->Err_0 is ClassNotFound,
    {
        let iterator = invoke(env, self.inner.as_obj(), JavaMethod::CollectionIterator, &[])?;
        let iterator = foreign(iterator.l())?;
        let iterator_class = Class::Iterator(env)?;
        Ok(Iterator::new(Object::new(env, iterator, iterator_class), self.class.clone()))
    }

    /// Convert the java.util.Set to a Vec: drains a fresh iterator.
    pub fn to_vec(&self, env: &mut JNIEnv<'local>) -> (r: Result<Vec<Object<'local>>, BridgeError>)
        ensures
            r is Ok ==> all_of_class(r->Ok_0@, self.class@),
            r is Err ==> r->Err_0 is ForeignCall || r->Err_0 is ClassNotFound,
    {
        let iter = self.iterator(env)?;
        iter.to_vec(env)
    }
}

} // verus!
