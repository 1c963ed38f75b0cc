//! `java.util.Iterator`: a single pass over the elements of a collection.
use crate::class::Class;
use crate::error::{foreign, BridgeError};
use crate::object::{nullable, Object};
use crate::methods::{invoke, JavaMethod};
use jni::JNIEnv;
use vstd::prelude::*;

verus! {

/// Wrapper around `java.util.Iterator`
#[derive(Debug)]
pub struct Iterator<'local> {
    /// The iterator itself
    pub inner: Object<'local>,
    /// The Class the iterator iterates over
    pub class: Class,
}

/// Every object of `objects` is declared of `class`.
pub open spec fn all_of_class(objects: Seq<Object>, class: Seq<char>) -> bool {
    forall|i: int| 0 <= i < objects.len() ==> #[trigger] objects[i].class@ == class
}

/// One step of draining an iterator: an element is appended and draining goes on; `None`
/// ends it and leaves `objects` as it was. Returns whether draining is over.
pub fn collect_step<'local>(objects: &mut Vec<Object<'local>>, step: Option<Object<'local>>) -> (done:
    bool)
    ensures
        step is None ==> done && final(objects)@ == old(objects)@,
        step matches Some(o) ==> !done && final(objects)@ == old(objects)@.push(o),
{
    match step {
        Some(object) => {
            objects.push(object);
            false
        },
        None => true,
    }
}

impl<'local> Iterator<'local> {
    /// Create a new instance of Iterator. The caller must guarantee that `object`
    /// implements Iterator and is not null.
    pub fn new(object: Object<'local>, class: Class) -> (r: Self)
        ensures
            r.inner.class@ == object.class@,
            r.class@ == class@,
    {
        Iterator { inner: object, class }
    }

    /// Returns true if the iteration has more elements. The cursor does not move.
    pub fn has_next(&self, env: &mut JNIEnv<'local>) -> (r: Result<bool, BridgeError>)
        ensures
            r is Err ==> r->Err_0 is ForeignCall,
    {
        let has_next = invoke(env, self.inner.as_obj(), JavaMethod::IteratorHasNext, &[])?;
        foreign(has_next.z())
    }

    /// Returns the next element in the iteration, declared of the iterator's class. `None`
    /// when there is none, and also when the element is `null`.
    pub fn next(&self, env: &mut JNIEnv<'local>) -> (r: Result<Option<Object<'local>>, BridgeError>)
        ensures
            r is Err ==> r->Err_0 is ForeignCall,
            r matches Ok(Some(o)) ==> o.class@ == self.class@,
    {
        let has_more = self.has_next(env)?;
        self.next_after(env, has_more)
    }

    /// The step of `next` once `hasNext` has answered `has_more`: with no more elements the
    /// runtime is not asked and the result is `None`; otherwise the cursor moves on by one
    /// and the element is returned as `nullable` gives it.
    pub fn next_after(&self, env: &mut JNIEnv<'local>, has_more: bool) -> (r: Result<
        Option<Object<'local>>,
        BridgeError,
    >)
        ensures
            !has_more ==> r matches Ok(None),
            r is Err ==> r->Err_0 is ForeignCall,
            r matches Ok(Some(o)) ==> o.class@ == self.class@,
    {
        if !has_more {
            return Ok(None);
        }
        let next = invoke(env, self.inner.as_obj(), JavaMethod::IteratorNext, &[])?;
        nullable(env, next, self.class.clone())
    }

    /// Drains the iterator into a Vec: every element up to the first `None` of `next`, in
    /// the order `next` gave them.
    pub fn to_vec(&self, env: &mut JNIEnv<'local>) -> (r: Result<Vec<Object<'local>>, BridgeError>)
        ensures
            r is Err ==> r->Err_0 is ForeignCall,
            r is Ok ==> all_of_class(r->Ok_0@, self.class@),
    {
        let mut objects: Vec<Object<'local>> = Vec::new();
        // A Vec holds at most usize::MAX elements; memory runs out long before that.
        while objects.len() < usize::MAX
            invariant
                all_of_class(objects@, self.class@),
            decreases usize::MAX - objects@.len(),
        {
            let step = self.next(env)?;
            if collect_step(&mut objects, step) {
                return Ok(objects);
            }
        }
        Ok(objects)
    }
}

} // verus!
