//! The one error type of the library.
use vstd::prelude::*;

verus! {

/// Why an operation failed.
#[derive(Debug)]
pub enum BridgeError {
    /// The `jni` crate or the Java runtime reported a failure (a missing method, a
    /// pending exception, a failed allocation); it is passed on as it came.
    ForeignCall(jni::errors::Error),
    /// A class or primitive type could not be resolved; holds the name that was asked for.
    ClassNotFound(String),
    /// A boxed-primitive extractor was used on an object of another class; holds the
    /// expected class name, then the object's own (both slash-separated).
    ClassMismatch(String, String),
}

/// The error of the boxed-primitive extractors, which is the library's one error type.
pub type PrimitiveError = BridgeError;

/// A result whose error is the library's error.
pub type PrimitiveResult<T> = Result<T, BridgeError>;

/// A result of the `jni` crate with its error carried as `BridgeError::ForeignCall`.
pub(crate) fn foreign<T>(r: Result<T, jni::errors::Error>) -> (out: Result<T, BridgeError>)
    ensures
        r is Ok <==> out is Ok,
        r is Ok ==> out->Ok_0 == r->Ok_0,
        r is Err ==> out->Err_0 == BridgeError::ForeignCall(r->Err_0),
{
    match r {
        Ok(v) => Ok(v),
        Err(e) => Err(BridgeError::ForeignCall(e)),
    }
}

} // verus!
