//! The Java methods the library calls, each with its name, its type descriptor and the
//! number of arguments that descriptor takes; and the calls themselves, which take a method
//! from this table and are held to hand it the right number of arguments.
use crate::error::{foreign, BridgeError};
use crate::primitives::{jboolean_of, jboolean_spec};
use crate::runtime::{call_method, call_static_method, new_object};
use jni::objects::{GlobalRef, JObject, JValue, JValueOwned};
use jni::JNIEnv;
use vstd::prelude::*;

verus! {

/// A Java method that the library calls.
#[derive(PartialEq, Eq, Structural, Clone, Copy, Debug)]
pub enum JavaMethod {
    ClassGetName,
    ClassGetPrimitiveClass,
    ObjectGetClass,
    ObjectEquals,
    ByteValue,
    LongValue,
    IntValue,
    BooleanValue,
    CharValue,
    ShortValue,
    IteratorHasNext,
    IteratorNext,
    CollectionAdd,
    CollectionClear,
    CollectionContains,
    CollectionIsEmpty,
    CollectionRemove,
    CollectionSize,
    CollectionIterator,
    ListAddAt,
    ListGet,
    ListIndexOf,
    ListRemoveAt,
    ListSet,
    ListSubList,
    MapPut,
    MapGet,
    MapContainsKey,
    MapContainsValue,
    MapRemove,
    MapRemoveIfMapped,
    MapEntrySet,
    MapClear,
    MapIsEmpty,
    MapSize,
    EntryGetKey,
    EntryGetValue,
    SystemClearProperty,
    SystemCurrentTimeMillis,
    SystemExit,
    SystemGc,
    SystemGetenvAll,
    SystemGetenv,
    SystemGetProperty,
    SystemLineSeparator,
    SystemLoad,
    SystemLoadLibrary,
    SystemNanoTime,
    SystemRunFinalization,
    SystemSetProperty,
}

/// The name of the method.
pub open spec fn method_name(m: JavaMethod) -> Seq<char> {
    match m {
        JavaMethod::ClassGetName => "getName"@,
        JavaMethod::ClassGetPrimitiveClass => "getPrimitiveClass"@,
        JavaMethod::ObjectGetClass => "getClass"@,
        JavaMethod::ObjectEquals => "equals"@,
        JavaMethod::ByteValue => "byteValue"@,
        JavaMethod::LongValue => "longValue"@,
        JavaMethod::IntValue => "intValue"@,
        JavaMethod::BooleanValue => "booleanValue"@,
        JavaMethod::CharValue => "charValue"@,
        JavaMethod::ShortValue => "shortValue"@,
        JavaMethod::IteratorHasNext => "hasNext"@,
        JavaMethod::IteratorNext => "next"@,
        JavaMethod::CollectionAdd => "add"@,
        JavaMethod::CollectionClear => "clear"@,
        JavaMethod::CollectionContains => "contains"@,
        JavaMethod::CollectionIsEmpty => "isEmpty"@,
        JavaMethod::CollectionRemove => "remove"@,
        JavaMethod::CollectionSize => "size"@,
        JavaMethod::CollectionIterator => "iterator"@,
        JavaMethod::ListAddAt => "add"@,
        JavaMethod::ListGet => "get"@,
        JavaMethod::ListIndexOf => "indexOf"@,
        JavaMethod::ListRemoveAt => "remove"@,
        JavaMethod::ListSet => "set"@,
        JavaMethod::ListSubList => "subList"@,
        JavaMethod::MapPut => "put"@,
        JavaMethod::MapGet => "get"@,
        JavaMethod::MapContainsKey => "containsKey"@,
        JavaMethod::MapContainsValue => "containsValue"@,
        JavaMethod::MapRemove => "remove"@,
        JavaMethod::MapRemoveIfMapped => "remove"@,
        JavaMethod::MapEntrySet => "entrySet"@,
        JavaMethod::MapClear => "clear"@,
        JavaMethod::MapIsEmpty => "isEmpty"@,
        JavaMethod::MapSize => "size"@,
        JavaMethod::EntryGetKey => "getKey"@,
        JavaMethod::EntryGetValue => "getValue"@,
        JavaMethod::SystemClearProperty => "clearProperty"@,
        JavaMethod::SystemCurrentTimeMillis => "currentTimeMillis"@,
        JavaMethod::SystemExit => "exit"@,
        JavaMethod::SystemGc => "gc"@,
        JavaMethod::SystemGetenvAll => "getenv"@,
        JavaMethod::SystemGetenv => "getenv"@,
        JavaMethod::SystemGetProperty => "getProperty"@,
        JavaMethod::SystemLineSeparator => "lineSeparator"@,
        JavaMethod::SystemLoad => "load"@,
        JavaMethod::SystemLoadLibrary => "loadLibrary"@,
        JavaMethod::SystemNanoTime => "nanoTime"@,
        JavaMethod::SystemRunFinalization => "runFinalization"@,
        JavaMethod::SystemSetProperty => "setProperty"@,
    }
}

/// The type descriptor of the method.
pub open spec fn method_sig(m: JavaMethod) -> Seq<char> {
    match m {
        JavaMethod::ClassGetName => "()Ljava/lang/String;"@,
        JavaMethod::ClassGetPrimitiveClass => "(Ljava/lang/String;)Ljava/lang/Class;"@,
        JavaMethod::ObjectGetClass => "()Ljava/lang/Class;"@,
        JavaMethod::ObjectEquals => "(Ljava/lang/Object;)Z"@,
        JavaMethod::ByteValue => "()B"@,
        JavaMethod::LongValue => "()J"@,
        JavaMethod::IntValue => "()I"@,
        JavaMethod::BooleanValue => "()Z"@,
        JavaMethod::CharValue => "()C"@,
        JavaMethod::ShortValue => "()S"@,
        JavaMethod::IteratorHasNext => "()Z"@,
        JavaMethod::IteratorNext => "()Ljava/lang/Object;"@,
        JavaMethod::CollectionAdd => "(Ljava/lang/Object;)Z"@,
        JavaMethod::CollectionClear => "()V"@,
        JavaMethod::CollectionContains => "(Ljava/lang/Object;)Z"@,
        JavaMethod::CollectionIsEmpty => "()Z"@,
        JavaMethod::CollectionRemove => "(Ljava/lang/Object;)Z"@,
        JavaMethod::CollectionSize => "()I"@,
        JavaMethod::CollectionIterator => "()Ljava/util/Iterator;"@,
        JavaMethod::ListAddAt => "(ILjava/lang/Object;)V"@,
        JavaMethod::ListGet => "(I)Ljava/lang/Object;"@,
        JavaMethod::ListIndexOf => "(Ljava/lang/Object;)I"@,
        JavaMethod::ListRemoveAt => "(I)Ljava/lang/Object;"@,
        JavaMethod::ListSet => "(ILjava/lang/Object;)Ljava/lang/Object;"@,
        JavaMethod::ListSubList => "(II)Ljava/util/List;"@,
        JavaMethod::MapPut => "(Ljava/lang/Object;Ljava/lang/Object;)Ljava/lang/Object;"@,
        JavaMethod::MapGet => "(Ljava/lang/Object;)Ljava/lang/Object;"@,
        JavaMethod::MapContainsKey => "(Ljava/lang/Object;)Z"@,
        JavaMethod::MapContainsValue => "(Ljava/lang/Object;)Z"@,
        JavaMethod::MapRemove => "(Ljava/lang/Object;)Ljava/lang/Object;"@,
        JavaMethod::MapRemoveIfMapped => "(Ljava/lang/Object;Ljava/lang/Object;)Z"@,
        JavaMethod::MapEntrySet => "()Ljava/util/Set;"@,
        JavaMethod::MapClear => "()V"@,
        JavaMethod::MapIsEmpty => "()Z"@,
        JavaMethod::MapSize => "()I"@,
        JavaMethod::EntryGetKey => "()Ljava/lang/Object;"@,
        JavaMethod::EntryGetValue => "()Ljava/lang/Object;"@,
        JavaMethod::SystemClearProperty => "(Ljava/lang/String;)Ljava/lang/String;"@,
        JavaMethod::SystemCurrentTimeMillis => "()J"@,
        JavaMethod::SystemExit => "(I)V"@,
        JavaMethod::SystemGc => "()V"@,
        JavaMethod::SystemGetenvAll => "()Ljava/util/Map;"@,
        JavaMethod::SystemGetenv => "(Ljava/lang/String;)Ljava/lang/String;"@,
        JavaMethod::SystemGetProperty => "(Ljava/lang/String;)Ljava/lang/String;"@,
        JavaMethod::SystemLineSeparator => "()Ljava/lang/String;"@,
        JavaMethod::SystemLoad => "(Ljava/lang/String;)V"@,
        JavaMethod::SystemLoadLibrary => "(Ljava/lang/String;)V"@,
        JavaMethod::SystemNanoTime => "()J"@,
        JavaMethod::SystemRunFinalization => "()V"@,
        JavaMethod::SystemSetProperty => "(Ljava/lang/String;Ljava/lang/String;)Ljava/lang/String;"@,
    }
}

/// How many arguments the method's descriptor takes.
pub open spec fn method_arity(m: JavaMethod) -> nat {
    match m {
        JavaMethod::ClassGetName => 0,
        JavaMethod::ClassGetPrimitiveClass => 1,
        JavaMethod::ObjectGetClass => 0,
        JavaMethod::ObjectEquals => 1,
        JavaMethod::ByteValue => 0,
        JavaMethod::LongValue => 0,
        JavaMethod::IntValue => 0,
        JavaMethod::BooleanValue => 0,
        JavaMethod::CharValue => 0,
        JavaMethod::ShortValue => 0,
        JavaMethod::IteratorHasNext => 0,
        JavaMethod::IteratorNext => 0,
        JavaMethod::CollectionAdd => 1,
        JavaMethod::CollectionClear => 0,
        JavaMethod::CollectionContains => 1,
        JavaMethod::CollectionIsEmpty => 0,
        JavaMethod::CollectionRemove => 1,
        JavaMethod::CollectionSize => 0,
        JavaMethod::CollectionIterator => 0,
        JavaMethod::ListAddAt => 2,
        JavaMethod::ListGet => 1,
        JavaMethod::ListIndexOf => 1,
        JavaMethod::ListRemoveAt => 1,
        JavaMethod::ListSet => 2,
        JavaMethod::ListSubList => 2,
        JavaMethod::MapPut => 2,
        JavaMethod::MapGet => 1,
        JavaMethod::MapContainsKey => 1,
        JavaMethod::MapContainsValue => 1,
        JavaMethod::MapRemove => 1,
        JavaMethod::MapRemoveIfMapped => 2,
        JavaMethod::MapEntrySet => 0,
        JavaMethod::MapClear => 0,
        JavaMethod::MapIsEmpty => 0,
        JavaMethod::MapSize => 0,
        JavaMethod::EntryGetKey => 0,
        JavaMethod::EntryGetValue => 0,
        JavaMethod::SystemClearProperty => 1,
        JavaMethod::SystemCurrentTimeMillis => 0,
        JavaMethod::SystemExit => 1,
        JavaMethod::SystemGc => 0,
        JavaMethod::SystemGetenvAll => 0,
        JavaMethod::SystemGetenv => 1,
        JavaMethod::SystemGetProperty => 1,
        JavaMethod::SystemLineSeparator => 0,
        JavaMethod::SystemLoad => 1,
        JavaMethod::SystemLoadLibrary => 1,
        JavaMethod::SystemNanoTime => 0,
        JavaMethod::SystemRunFinalization => 0,
        JavaMethod::SystemSetProperty => 2,
    }
}

/// Whether the method is static (called on `java.lang.System` or `java.lang.Class`).
pub open spec fn method_is_static(m: JavaMethod) -> bool {
    match m {
        JavaMethod::ClassGetName => false,
        JavaMethod::ClassGetPrimitiveClass => true,
        JavaMethod::ObjectGetClass => false,
        JavaMethod::ObjectEquals => false,
        JavaMethod::ByteValue => false,
        JavaMethod::LongValue => false,
        JavaMethod::IntValue => false,
        JavaMethod::BooleanValue => false,
        JavaMethod::CharValue => false,
        JavaMethod::ShortValue => false,
        JavaMethod::IteratorHasNext => false,
        JavaMethod::IteratorNext => false,
        JavaMethod::CollectionAdd => false,
        JavaMethod::CollectionClear => false,
        JavaMethod::CollectionContains => false,
        JavaMethod::CollectionIsEmpty => false,
        JavaMethod::CollectionRemove => false,
        JavaMethod::CollectionSize => false,
        JavaMethod::CollectionIterator => false,
        JavaMethod::ListAddAt => false,
        JavaMethod::ListGet => false,
        JavaMethod::ListIndexOf => false,
        JavaMethod::ListRemoveAt => false,
        JavaMethod::ListSet => false,
        JavaMethod::ListSubList => false,
        JavaMethod::MapPut => false,
        JavaMethod::MapGet => false,
        JavaMethod::MapContainsKey => false,
        JavaMethod::MapContainsValue => false,
        JavaMethod::MapRemove => false,
        JavaMethod::MapRemoveIfMapped => false,
        JavaMethod::MapEntrySet => false,
        JavaMethod::MapClear => false,
        JavaMethod::MapIsEmpty => false,
        JavaMethod::MapSize => false,
        JavaMethod::EntryGetKey => false,
        JavaMethod::EntryGetValue => false,
        JavaMethod::SystemClearProperty => true,
        JavaMethod::SystemCurrentTimeMillis => true,
        JavaMethod::SystemExit => true,
        JavaMethod::SystemGc => true,
        JavaMethod::SystemGetenvAll => true,
        JavaMethod::SystemGetenv => true,
        JavaMethod::SystemGetProperty => true,
        JavaMethod::SystemLineSeparator => true,
        JavaMethod::SystemLoad => true,
        JavaMethod::SystemLoadLibrary => true,
        JavaMethod::SystemNanoTime => true,
        JavaMethod::SystemRunFinalization => true,
        JavaMethod::SystemSetProperty => true,
    }
}

/// The name and the type descriptor of a method.
pub fn descriptor(m: JavaMethod) -> (r: (&'static str, &'static str))
    ensures
        r.0@ == method_name(m),
        r.1@ == method_sig(m),
{
    match m {
        JavaMethod::ClassGetName => ("getName", "()Ljava/lang/String;"),
        JavaMethod::ClassGetPrimitiveClass => ("getPrimitiveClass", "(Ljava/lang/String;)Ljava/lang/Class;"),
        JavaMethod::ObjectGetClass => ("getClass", "()Ljava/lang/Class;"),
        JavaMethod::ObjectEquals => ("equals", "(Ljava/lang/Object;)Z"),
        JavaMethod::ByteValue => ("byteValue", "()B"),
        JavaMethod::LongValue => ("longValue", "()J"),
        JavaMethod::IntValue => ("intValue", "()I"),
        JavaMethod::BooleanValue => ("booleanValue", "()Z"),
        JavaMethod::CharValue => ("charValue", "()C"),
        JavaMethod::ShortValue => ("shortValue", "()S"),
        JavaMethod::IteratorHasNext => ("hasNext", "()Z"),
        JavaMethod::IteratorNext => ("next", "()Ljava/lang/Object;"),
        JavaMethod::CollectionAdd => ("add", "(Ljava/lang/Object;)Z"),
        JavaMethod::CollectionClear => ("clear", "()V"),
        JavaMethod::CollectionContains => ("contains", "(Ljava/lang/Object;)Z"),
        JavaMethod::CollectionIsEmpty => ("isEmpty", "()Z"),
        JavaMethod::CollectionRemove => ("remove", "(Ljava/lang/Object;)Z"),
        JavaMethod::CollectionSize => ("size", "()I"),
        JavaMethod::CollectionIterator => ("iterator", "()Ljava/util/Iterator;"),
        JavaMethod::ListAddAt => ("add", "(ILjava/lang/Object;)V"),
        JavaMethod::ListGet => ("get", "(I)Ljava/lang/Object;"),
        JavaMethod::ListIndexOf => ("indexOf", "(Ljava/lang/Object;)I"),
        JavaMethod::ListRemoveAt => ("remove", "(I)Ljava/lang/Object;"),
        JavaMethod::ListSet => ("set", "(ILjava/lang/Object;)Ljava/lang/Object;"),
        JavaMethod::ListSubList => ("subList", "(II)Ljava/util/List;"),
        JavaMethod::MapPut => ("put", "(Ljava/lang/Object;Ljava/lang/Object;)Ljava/lang/Object;"),
        JavaMethod::MapGet => ("get", "(Ljava/lang/Object;)Ljava/lang/Object;"),
        JavaMethod::MapContainsKey => ("containsKey", "(Ljava/lang/Object;)Z"),
        JavaMethod::MapContainsValue => ("containsValue", "(Ljava/lang/Object;)Z"),
        JavaMethod::MapRemove => ("remove", "(Ljava/lang/Object;)Ljava/lang/Object;"),
        JavaMethod::MapRemoveIfMapped => ("remove", "(Ljava/lang/Object;Ljava/lang/Object;)Z"),
        JavaMethod::MapEntrySet => ("entrySet", "()Ljava/util/Set;"),
        JavaMethod::MapClear => ("clear", "()V"),
        JavaMethod::MapIsEmpty => ("isEmpty", "()Z"),
        JavaMethod::MapSize => ("size", "()I"),
        JavaMethod::EntryGetKey => ("getKey", "()Ljava/lang/Object;"),
        JavaMethod::EntryGetValue => ("getValue", "()Ljava/lang/Object;"),
        JavaMethod::SystemClearProperty => ("clearProperty", "(Ljava/lang/String;)Ljava/lang/String;"),
        JavaMethod::SystemCurrentTimeMillis => ("currentTimeMillis", "()J"),
        JavaMethod::SystemExit => ("exit", "(I)V"),
        JavaMethod::SystemGc => ("gc", "()V"),
        JavaMethod::SystemGetenvAll => ("getenv", "()Ljava/util/Map;"),
        JavaMethod::SystemGetenv => ("getenv", "(Ljava/lang/String;)Ljava/lang/String;"),
        JavaMethod::SystemGetProperty => ("getProperty", "(Ljava/lang/String;)Ljava/lang/String;"),
        JavaMethod::SystemLineSeparator => ("lineSeparator", "()Ljava/lang/String;"),
        JavaMethod::SystemLoad => ("load", "(Ljava/lang/String;)V"),
        JavaMethod::SystemLoadLibrary => ("loadLibrary", "(Ljava/lang/String;)V"),
        JavaMethod::SystemNanoTime => ("nanoTime", "()J"),
        JavaMethod::SystemRunFinalization => ("runFinalization", "()V"),
        JavaMethod::SystemSetProperty => ("setProperty", "(Ljava/lang/String;Ljava/lang/String;)Ljava/lang/String;"),
    }
}

/// Calls the instance method `m` on `obj` with `args`, one argument for each parameter of
/// its descriptor.
pub(crate) fn invoke<'local>(
    env: &mut JNIEnv<'local>,
    obj: &JObject,
    m: JavaMethod,
    args: &[JValue],
) -> (r: Result<JValueOwned<'local>, BridgeError>)
    requires
        !method_is_static(m),
        args@.len() == method_arity(m),
    ensures
        r is Err ==> r->Err_0 is ForeignCall,
{
    let (name, sig) = descriptor(m);
    foreign(call_method(env, obj, name, sig, args))
}

/// Calls the static method `m` of `class` with `args`, one argument for each parameter of
/// its descriptor.
pub(crate) fn invoke_static<'local>(
    env: &mut JNIEnv<'local>,
    class: &GlobalRef,
    m: JavaMethod,
    args: &[JValue],
) -> (r: Result<JValueOwned<'local>, BridgeError>)
    requires
        method_is_static(m),
        args@.len() == method_arity(m),
    ensures
        r is Err ==> r->Err_0 is ForeignCall,
{
    let (name, sig) = descriptor(m);
    foreign(call_static_method(env, class, name, sig, args))
}

/// The constructors the library calls, by the arguments they take.
#[derive(PartialEq, Eq, Structural, Clone, Copy, Debug)]
pub enum Constructor {
    NoArgs,
    Int,
    Byte,
    Long,
    Boolean,
    Char,
    Short,
}

/// The type descriptor of the constructor.
pub open spec fn constructor_sig(c: Constructor) -> Seq<char> {
    match c {
        Constructor::NoArgs => "()V"@,
        Constructor::Int => "(I)V"@,
        Constructor::Byte => "(B)V"@,
        Constructor::Long => "(J)V"@,
        Constructor::Boolean => "(Z)V"@,
        Constructor::Char => "(C)V"@,
        Constructor::Short => "(S)V"@,
    }
}

/// The arguments fit the constructor's descriptor: none, or one of its primitive type.
pub open spec fn fits_constructor(c: Constructor, args: Seq<JValue>) -> bool {
    match c {
        Constructor::NoArgs => args.len() == 0,
        Constructor::Int => args.len() == 1 && args[0] is Int,
        Constructor::Byte => args.len() == 1 && args[0] is Byte,
        Constructor::Long => args.len() == 1 && args[0] is Long,
        Constructor::Boolean => args.len() == 1 && args[0] is Bool,
        Constructor::Char => args.len() == 1 && args[0] is Char,
        Constructor::Short => args.len() == 1 && args[0] is Short,
    }
}

/// The type descriptor of a constructor.
pub fn constructor_descriptor(c: Constructor) -> (r: &'static str)
    ensures
        r@ == constructor_sig(c),
{
    match c {
        Constructor::NoArgs => "()V",
        Constructor::Int => "(I)V",
        Constructor::Byte => "(B)V",
        Constructor::Long => "(J)V",
        Constructor::Boolean => "(Z)V",
        Constructor::Char => "(C)V",
        Constructor::Short => "(S)V",
    }
}

/// Runs the constructor `c` of `class` with `args`, which fit its descriptor.
pub(crate) fn construct<'local>(
    env: &mut JNIEnv<'local>,
    class: &GlobalRef,
    c: Constructor,
    args: &[JValue],
) -> (r: Result<JObject<'local>, BridgeError>)
    requires
        fits_constructor(c, args@),
    ensures
        r is Err ==> r->Err_0 is ForeignCall,
{
    foreign(new_object(env, class, constructor_descriptor(c), args))
}

/// A host byte as the argument of a Java `byte` parameter: the same bits, read as signed.
pub fn byte_arg(b: u8) -> (r: JValue<'static, 'static>)
    ensures
        r == JValue::<'static, 'static>::Byte(b as i8),
{
    JValue::Byte(b as i8)
}

/// A host boolean as the argument of a Java `boolean` parameter: 1 for `true`, 0 for `false`.
pub fn boolean_arg(b: bool) -> (r: JValue<'static, 'static>)
    ensures
        r == JValue::<'static, 'static>::Bool(jboolean_spec(b)),
{
    JValue::Bool(jboolean_of(b))
}

} // verus!
