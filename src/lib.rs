//! Typed access to objects of a Java virtual machine through the `jni` crate:
//! classes, boxed primitives, strings, primitive arrays and the collection
//! interfaces of `java.util`.
mod runtime;
pub use runtime::null_ref;

mod error;
pub use error::{BridgeError, PrimitiveError, PrimitiveResult};

mod class;
pub use class::{lemma_dot_and_slash_agree, lookup_failed, slash_form, slashed, Class};

mod primitives;
pub use primitives::{
    bools_of, bytes_of, from_jbooleans, from_jbytes, jboolean_of, jboolean_spec, jbooleans_of,
    jbytes_of, lemma_booleans_round_trip, lemma_boxed_encoding_round_trip, lemma_bytes_round_trip,
    buffer_len, buffer_size, java_length, to_jbooleans, to_jbytes, Primitive,
};

mod object;
pub use object::{
    boolean_from, boxed_class_name, boxed_name, byte_from, char_from, extracted_as, int_from,
    lemma_wrong_extractor_refuses, long_from, nullable, refused_as, short_from, BoxedKind, Object,
};

mod string;
pub use string::{string_or_none, JavaString};

mod iterator;
pub use iterator::{all_of_class, collect_step, Iterator};

mod list;
pub use list::List;

mod set;
pub use set::JavaSet;

mod map_entry;
pub use map_entry::MapEntry;

mod map;
pub use map::JavaMap;

mod system;
pub use system::System;

mod methods;
pub use methods::{
    boolean_arg, byte_arg, constructor_descriptor, constructor_sig, descriptor, fits_constructor,
    method_arity, method_is_static, method_name, method_sig, Constructor, JavaMethod,
};
