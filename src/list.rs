//! `java.util.List`, with the class of its elements.
use crate::class::Class;
use crate::error::{foreign, BridgeError};
use crate::iterator::Iterator;
use crate::object::{nullable, Object};
use crate::methods::{construct, invoke, Constructor, JavaMethod};
use jni::objects::JValue;
use jni::JNIEnv;
use vstd::prelude::*;

verus! {

/// Wrapper around `java.util.List`
#[derive(Debug)]
pub struct List<'local> {
    /// The list itself
    pub inner: Object<'local>,
    /// The type contained in the List
    pub class: Class,
}

impl<'local> List<'local> {
    /// Create a List abstraction from its raw components. The caller must guarantee that
    /// `object` implements `java.util.List` and that `class` is the class of its elements.
    pub fn new(object: Object<'local>, class: Class) -> (r: Self)
        ensures
            r.inner.class@ == object.class@,
            r.class@ == class@,
    {
        List { inner: object, class }
    }

    /// A List whose elements are declared of the list object's own class.
    pub fn from_object(object: Object<'local>) -> (r: Self)
        ensures
            r.inner.class@ == object.class@,
            r.class@ == object.class@,
    {
        let class = object.class.clone();
        List { inner: object, class }
    }

    /// Create a new, empty `java.util.ArrayList` of elements of `v_class`.
    pub fn arraylist(env: &mut JNIEnv<'local>, v_class: Class) -> (r: Result<Self, BridgeError>)
        ensures
            r is Ok ==> r->Ok_0.inner.class@ == "java/util/ArrayList"@,
            r is Ok ==> r->Ok_0.class@ == v_class@,
            r is Err ==> r->Err_0 is ForeignCall || r->Err_0 is ClassNotFound,
    {
        let list_class = Class::ArrayList(env)?;
        let arraylist = construct(env, list_class.global(), Constructor::NoArgs, &[])?;
        Ok(List { inner: Object::new(env, arraylist, list_class), class: v_class })
    }

    /// Appends the specified element to the end of this list (optional operation).
    pub fn add(&self, env: &mut JNIEnv<'local>, object: &Object<'local>) -> (r: Result<bool, BridgeError>)
        ensures
            r is Err ==> r->Err_0 is ForeignCall,
    {
        let args = [object.as_value()];
        let added = invoke(env, self.inner.as_obj(), JavaMethod::CollectionAdd, &args)?;
        foreign(added.z())
    }

    /// Inserts the specified element at the specified position in this list (optional
    /// operation).
    pub fn add_at(&self, env: &mut JNIEnv<'local>, object: &Object<'local>, index: i32) -> (r: Result<
        (),
        BridgeError,
    >)
        ensures
            r is Err ==> r->Err_0 is ForeignCall,
    {
        let args = [JValue::Int(index), object.as_value()];
        invoke(env, self.inner.as_obj(), JavaMethod::ListAddAt, &args)?;
        Ok(())
    }

    /// Removes all of the elements from this list (optional operation).
    pub fn clear(&self, env: &mut JNIEnv<'local>) -> (r: Result<(), BridgeError>)
        ensures
            r is Err ==> r->Err_0 is ForeignCall,
    {
        invoke(env, self.inner.as_obj(), JavaMethod::CollectionClear, &[])?;
        Ok(())
    }

    /// Returns true if this list contains the specified element.
    pub fn contains(&self, env: &mut JNIEnv<'local>, object: &Object<'local>) -> (r: Result<
        bool,
        BridgeError,
    >)
        ensures
            r is Err ==> r->Err_0 is ForeignCall,
    {
        let args = [object.as_value()];
        let contains = invoke(env, self.inner.as_obj(), JavaMethod::CollectionContains, &args)?;
        foreign(contains.z())
    }

    /// Returns the element at the specified position in this list, declared of the list's
    /// element class; `None` when the element is `null`.
    pub fn get(&self, env: &mut JNIEnv<'local>, index: i32) -> (r: Result<Option<Object<'local>>, BridgeError>)
        ensures
            r is Err ==> r->Err_0 is ForeignCall,
            r matches Ok(Some(o)) ==> o.class@ == self.class@,
    {
        let args = [JValue::Int(index)];
        let value = invoke(env, self.inner.as_obj(), JavaMethod::ListGet, &args)?;
        nullable(env, value, self.class.clone())
    }

    /// Returns the index of the first occurrence of the specified element in this list, or
    /// -1 if this list does not contain the element.
    pub fn index_of(&self, env: &mut JNIEnv<'local>, object: &Object<'local>) -> (r: Result<
        i32,
        BridgeError,
    >)
        ensures
            r is Err ==> r->Err_0 is ForeignCall,
    {
        let args = [object.as_value()];
        let index = invoke(env, self.inner.as_obj(), JavaMethod::ListIndexOf, &args)?;
        foreign(index.i())
    }

    /// Returns true if this list contains no elements.
    pub fn is_empty(&self, env: &mut JNIEnv<'local>) -> (r: Result<bool, BridgeError>)
        ensures
            r is Err ==> r->Err_0 is ForeignCall,
    {
        let is_empty = invoke(env, self.inner.as_obj(), JavaMethod::CollectionIsEmpty, &[])?;
        foreign(is_empty.z())
    }

    /// Removes the first occurrence of the specified element from this list, if it is
    /// present (optional operation).
    pub fn remove(&self, env: &mut JNIEnv<'local>, object: &Object<'local>) -> (r: Result<
        bool,
        BridgeError,
    >)
        ensures
            r is Err ==> r->Err_0 is ForeignCall,
    {
        let args = [object.as_value()];
        let removed = invoke(env, self.inner.as_obj(), JavaMethod::CollectionRemove, &args)?;
        foreign(removed.z())
    }

    /// Removes the element at the specified position in this list (optional operation) and
    /// returns it; `None` when it was `null`.
    pub fn remove_at(&self, env: &mut JNIEnv<'local>, index: i32) -> (r: Result<
        Option<Object<'local>>,
        BridgeError,
    >)
        ensures
            r is Err ==> r->Err_0 is ForeignCall,
            r matches Ok(Some(o)) ==> o.class@ == self.class@,
    {
        let args = [JValue::Int(index)];
        let value = invoke(env, self.inner.as_obj(), JavaMethod::ListRemoveAt, &args)?;
        nullable(env, value, self.class.clone())
    }

    /// Replaces the element at the specified position in this list with the specified
    /// element (optional operation) and returns the one replaced; `None` when it was `null`.
    pub fn set(&self, env: &mut JNIEnv<'local>, object: &Object<'local>, index: i32) -> (r: Result<
        Option<Object<'local>>,
        BridgeError,
    >)
        ensures
            r is Err ==> r->Err_0 is ForeignCall,
            r matches Ok(Some(o)) ==> o.class@ == self.class@,
    {
        let args = [JValue::Int(index), object.as_value()];
        let value = invoke(env, self.inner.as_obj(), JavaMethod::ListSet, &args)?;
        nullable(env, value, self.class.clone())
    }

    /// Returns the number of elements in this list.
    pub fn size(&self, env: &mut JNIEnv<'local>) -> (r: Result<i32, BridgeError>)
        ensures
            r is Err ==> r->Err_0 is ForeignCall,
    {
        let size = invoke(env, self.inner.as_obj(), JavaMethod::CollectionSize, &[])?;
        foreign(size.i())
    }

    /// Returns a view of the portion of this list between the specified `from` index,
    /// inclusive, and `to` index, exclusive. Changes through the view reach this list.
    pub fn sublist(&self, env: &mut JNIEnv<'local>, from: i32, to: i32) -> (r: Result<Self, BridgeError>)
        ensures
            r is Err ==> r->Err_0 is ForeignCall,
            r is Ok ==> r->Ok_0.inner.class@ == self.inner.class@,
            r is Ok ==> r->Ok_0.class@ == self.class@,
    {
        let args = [JValue::Int(from), JValue::Int(to)];
        let sublist = invoke(env, self.inner.as_obj(), JavaMethod::ListSubList, &args)?;
        let sublist = foreign(sublist.l())?;
        Ok(List { inner: Object::new(env, sublist, self.inner.class.clone()), class: self.class.clone() })
    }

    /// Returns an iterator over the elements in this list in proper sequence.
    pub fn iterator(&self, env: &mut JNIEnv<'local>) -> (r: Result<Iterator<'local>, BridgeError>)
        ensures
            r is Ok ==> r->Ok_0.inner.class@ == "java/util/Iterator"@,
            r is Ok ==> r->Ok_0.class@ == self.class@,
            r is Err ==> r->Err_0 is ForeignCall || r->Err_0 is ClassNotFound,
    {
        let iterator = invoke(env, self.inner.as_obj(), JavaMethod::CollectionIterator, &[])?;
        let iterator = foreign(iterator.l())?;
        let iterator_class = Class::Iterator(env)?;
        Ok(Iterator::new(Object::new(env, iterator, iterator_class), self.class.clone()))
    }
}

} // verus!
