//! Primitive arrays: copies between host buffers and Java primitive arrays.
use crate::error::{foreign, BridgeError};
use crate::runtime::{
    get_array_length, get_boolean_array_region, get_byte_array_region, get_char_array_region,
    get_int_array_region, get_long_array_region, get_short_array_region, new_boolean_array,
    new_byte_array, new_char_array, new_int_array, new_long_array, new_short_array,
    set_boolean_array_region, set_byte_array_region, set_char_array_region, set_int_array_region,
    set_long_array_region, set_short_array_region,
};
use jni::objects::JObject;
use jni::JNIEnv;
use vstd::prelude::*;

verus! {

/// The `jboolean` a host boolean is passed as: 1 for `true`, 0 for `false`.
pub open spec fn jboolean_spec(b: bool) -> u8 {
    if b {
        1
    } else {
        0
    }
}

/// Host bytes as the signed bytes of Java, bit for bit.
pub open spec fn jbytes_of(bytes: Seq<u8>) -> Seq<i8> {
    bytes.map_values(|b: u8| b as i8)
}

/// Java's signed bytes as host bytes, bit for bit.
pub open spec fn bytes_of(jbytes: Seq<i8>) -> Seq<u8> {
    jbytes.map_values(|b: i8| b as u8)
}

/// Host booleans as `jboolean`s.
pub open spec fn jbooleans_of(bools: Seq<bool>) -> Seq<u8> {
    bools.map_values(|b: bool| jboolean_spec(b))
}

/// `jboolean`s as host booleans: any value but 0 is `true`.
pub open spec fn bools_of(jbooleans: Seq<u8>) -> Seq<bool> {
    jbooleans.map_values(|x: u8| x != 0)
}

/// The `jboolean` a host boolean is passed as.
pub fn jboolean_of(b: bool) -> (r: u8)
    ensures
        r == jboolean_spec(b),
{
    if b {
        1
    } else {
        0
    }
}

/// Host bytes reinterpreted as Java's signed bytes.
pub fn to_jbytes(bytes: &[u8]) -> (r: Vec<i8>)
    ensures
        r@ == jbytes_of(bytes@),
{
    let mut out: Vec<i8> = Vec::new();
    let mut i: usize = 0;
    while i < bytes.len()
        invariant
            i <= bytes@.len(),
            out@ == jbytes_of(bytes@.subrange(0, i as int)),
        decreases bytes@.len() - i,
    {
        out.push(bytes[i] as i8);
        i = i + 1;
        assert(out@ =~= jbytes_of(bytes@.subrange(0, i as int)));
    }
    assert(bytes@.subrange(0, bytes@.len() as int) =~= bytes@);
    out
}

/// Java's signed bytes reinterpreted as host bytes.
pub fn from_jbytes(jbytes: &[i8]) -> (r: Vec<u8>)
    ensures
        r@ == bytes_of(jbytes@),
{
    let mut out: Vec<u8> = Vec::new();
    let mut i: usize = 0;
    while i < jbytes.len()
        invariant
            i <= jbytes@.len(),
            out@ == bytes_of(jbytes@.subrange(0, i as int)),
        decreases jbytes@.len() - i,
    {
        out.push(jbytes[i] as u8);
        i = i + 1;
        assert(out@ =~= bytes_of(jbytes@.subrange(0, i as int)));
    }
    assert(jbytes@.subrange(0, jbytes@.len() as int) =~= jbytes@);
    out
}

/// Host booleans as `jboolean`s: 1 for `true`, 0 for `false`.
pub fn to_jbooleans(bools: &[bool]) -> (r: Vec<u8>)
    ensures
        r@ == jbooleans_of(bools@),
{
    let mut out: Vec<u8> = Vec::new();
    let mut i: usize = 0;
    while i < bools.len()
        invariant
            i <= bools@.len(),
            out@ == jbooleans_of(bools@.subrange(0, i as int)),
        decreases bools@.len() - i,
    {
        out.push(jboolean_of(bools[i]));
        i = i + 1;
        assert(out@ =~= jbooleans_of(bools@.subrange(0, i as int)));
    }
    assert(bools@.subrange(0, bools@.len() as int) =~= bools@);
    out
}

/// `jboolean`s as host booleans: 0 is `false`, any other value `true`.
pub fn from_jbooleans(jbooleans: &[u8]) -> (r: Vec<bool>)
    ensures
        r@ == bools_of(jbooleans@),
{
    let mut out: Vec<bool> = Vec::new();
    let mut i: usize = 0;
    while i < jbooleans.len()
        invariant
            i <= jbooleans@.len(),
            out@ == bools_of(jbooleans@.subrange(0, i as int)),
        decreases jbooleans@.len() - i,
    {
        out.push(jbooleans[i] != 0);
        i = i + 1;
        assert(out@ =~= bools_of(jbooleans@.subrange(0, i as int)));
    }
    assert(jbooleans@.subrange(0, jbooleans@.len() as int) =~= jbooleans@);
    out
}

/// Reinterpreting host bytes as Java bytes and back gives the same bytes.
pub proof fn lemma_bytes_round_trip(bytes: Seq<u8>)
    ensures
        bytes_of(jbytes_of(bytes)) == bytes,
{
    assert forall|i: int| 0 <= i < bytes.len() implies bytes_of(jbytes_of(bytes))[i] == bytes[i] by {
        let b = bytes[i];
        assert(((b as i8) as u8) == b) by (bit_vector);
    }
    assert(bytes_of(jbytes_of(bytes)) =~= bytes);
}

/// Passing host booleans as `jboolean`s and reading them back gives the same booleans.
pub proof fn lemma_booleans_round_trip(bools: Seq<bool>)
    ensures
        bools_of(jbooleans_of(bools)) == bools,
{
    assert(bools_of(jbooleans_of(bools)) =~= bools);
}

/// A boxed byte or boolean crosses the boundary in Java's representation, and the
/// extractors undo what the constructors did: `byte_arg(b)` hands over `b as i8`, and
/// `byte_from` reads a byte `x` back as `x as u8`, which is `b` again; `boolean_arg(flag)`
/// hands over `jboolean_spec(flag)`, and `boolean_from` reads `x` back as `x == 1`, which
/// is `flag` again.
pub proof fn lemma_boxed_encoding_round_trip(b: u8, flag: bool)
    ensures
        ((b as i8) as u8) == b,
        (jboolean_spec(flag) == 1) == flag,
{
    assert(((b as i8) as u8) == b) by (bit_vector);
}

/// The size of a host buffer for an array of the reported length. The runtime reports no
/// negative length; one would give an empty buffer.
pub open spec fn buffer_size(len: i32) -> int {
    if len < 0 {
        0
    } else {
        len as int
    }
}

/// The size of a host buffer for an array of the reported length.
pub fn buffer_len(len: i32) -> (r: usize)
    ensures
        r == buffer_size(len),
{
    if len < 0 {
        0
    } else {
        len as usize
    }
}

/// The Java length of a host buffer, which fits a Java array.
pub fn java_length(n: usize) -> (r: i32)
    requires
        n <= i32::MAX,
    ensures
        r as int == n,
{
    n as i32
}

/// Copies between host buffers and Java primitive arrays.
pub struct Primitive();

impl Primitive {
    /// Create a new int[] holding the values of `ints`.
    pub fn new_int_array<'local>(env: &JNIEnv<'local>, ints: &[i32]) -> (r: Result<
        JObject<'local>,
        BridgeError,
    >)
        requires
            ints@.len() <= i32::MAX,
        ensures
            r is Err ==> r->Err_0 is ForeignCall,
    {
        let arr = foreign(new_int_array(env, java_length(ints.len())))?;
        foreign(set_int_array_region(env, &arr, ints))?;
        Ok(arr)
    }

    /// Copy a int[] to a Vec.
    pub fn get_int_array(env: &JNIEnv, ints: &JObject) -> (r: Result<Vec<i32>, BridgeError>)
        ensures
            r is Err ==> r->Err_0 is ForeignCall,
            r is Ok ==> r->Ok_0@.len() <= i32::MAX,
    {
        let len = foreign(get_array_length(env, ints))?;
        Self::read_int_array(env, ints, len)
    }

    /// Copy the first `len` elements of a int[] to a Vec; a buffer of `len` elements
    /// is filled.
    pub fn read_int_array(env: &JNIEnv, ints: &JObject, len: i32) -> (r: Result<Vec<i32>, BridgeError>)
        ensures
            r is Err ==> r->Err_0 is ForeignCall,
            r is Ok ==> r->Ok_0@.len() == buffer_size(len),
    {
        let mut buf = vec![0i32; buffer_len(len)];
        foreign(get_int_array_region(env, ints, &mut buf))?;
        Ok(buf)
    }

    /// Create a new long[] holding the values of `longs`.
    pub fn new_long_array<'local>(env: &JNIEnv<'local>, longs: &[i64]) -> (r: Result<
        JObject<'local>,
        BridgeError,
    >)
        requires
            longs@.len() <= i32::MAX,
        ensures
            r is Err ==> r->Err_0 is ForeignCall,
    {
        let arr = foreign(new_long_array(env, java_length(longs.len())))?;
        foreign(set_long_array_region(env, &arr, longs))?;
        Ok(arr)
    }

    /// Copy a long[] to a Vec.
    pub fn get_long_array(env: &JNIEnv, longs: &JObject) -> (r: Result<Vec<i64>, BridgeError>)
        ensures
            r is Err ==> r->Err_0 is ForeignCall,
            r is Ok ==> r->Ok_0@.len() <= i32::MAX,
    {
        let len = foreign(get_array_length(env, longs))?;
        Self::read_long_array(env, longs, len)
    }

    /// Copy the first `len` elements of a long[] to a Vec; a buffer of `len` elements
    /// is filled.
    pub fn read_long_array(env: &JNIEnv, longs: &JObject, len: i32) -> (r: Result<Vec<i64>, BridgeError>)
        ensures
            r is Err ==> r->Err_0 is ForeignCall,
            r is Ok ==> r->Ok_0@.len() == buffer_size(len),
    {
        let mut buf = vec![0i64; buffer_len(len)];
        foreign(get_long_array_region(env, longs, &mut buf))?;
        Ok(buf)
    }

    /// Create a new char[] holding the values of `chars`.
    pub fn new_char_array<'local>(env: &JNIEnv<'local>, chars: &[u16]) -> (r: Result<
        JObject<'local>,
        BridgeError,
    >)
        requires
            chars@.len() <= i32::MAX,
        ensures
            r is Err ==> r->Err_0 is ForeignCall,
    {
        let arr = foreign(new_char_array(env, java_length(chars.len())))?;
        foreign(set_char_array_region(env, &arr, chars))?;
        Ok(arr)
    }

    /// Copy a char[] to a Vec.
    pub fn get_char_array(env: &JNIEnv, chars: &JObject) -> (r: Result<Vec<u16>, BridgeError>)
        ensures
            r is Err ==> r->Err_0 is ForeignCall,
            r is Ok ==> r->Ok_0@.len() <= i32::MAX,
    {
        let len = foreign(get_array_length(env, chars))?;
        Self::read_char_array(env, chars, len)
    }

    /// Copy the first `len` elements of a char[] to a Vec; a buffer of `len` elements
    /// is filled.
    pub fn read_char_array(env: &JNIEnv, chars: &JObject, len: i32) -> (r: Result<Vec<u16>, BridgeError>)
        ensures
            r is Err ==> r->Err_0 is ForeignCall,
            r is Ok ==> r->Ok_0@.len() == buffer_size(len),
    {
        let mut buf = vec![0u16; buffer_len(len)];
        foreign(get_char_array_region(env, chars, &mut buf))?;
        Ok(buf)
    }

    /// Create a new short[] holding the values of `shorts`.
    pub fn new_short_array<'local>(env: &JNIEnv<'local>, shorts: &[i16]) -> (r: Result<
        JObject<'local>,
        BridgeError,
    >)
        requires
            shorts@.len() <= i32::MAX,
        ensures
            r is Err ==> r->Err_0 is ForeignCall,
    {
        let arr = foreign(new_short_array(env, java_length(shorts.len())))?;
        foreign(set_short_array_region(env, &arr, shorts))?;
        Ok(arr)
    }

    /// Copy a short[] to a Vec.
    pub fn get_short_array(env: &JNIEnv, shorts: &JObject) -> (r: Result<Vec<i16>, BridgeError>)
        ensures
            r is Err ==> r->Err_0 is ForeignCall,
            r is Ok ==> r->Ok_0@.len() <= i32::MAX,
    {
        let len = foreign(get_array_length(env, shorts))?;
        Self::read_short_array(env, shorts, len)
    }

    /// Copy the first `len` elements of a short[] to a Vec; a buffer of `len` elements
    /// is filled.
    pub fn read_short_array(env: &JNIEnv, shorts: &JObject, len: i32) -> (r: Result<Vec<i16>, BridgeError>)
        ensures
            r is Err ==> r->Err_0 is ForeignCall,
            r is Ok ==> r->Ok_0@.len() == buffer_size(len),
    {
        let mut buf = vec![0i16; buffer_len(len)];
        foreign(get_short_array_region(env, shorts, &mut buf))?;
        Ok(buf)
    }

    /// Create a new byte[] holding the bytes of `bytes`, bit for bit.
    pub fn new_byte_array<'local>(env: &JNIEnv<'local>, bytes: &[u8]) -> (r: Result<
        JObject<'local>,
        BridgeError,
    >)
        requires
            bytes@.len() <= i32::MAX,
        ensures
            r is Err ==> r->Err_0 is ForeignCall,
    {
        let jbytes = to_jbytes(bytes);
        let arr = foreign(new_byte_array(env, java_length(jbytes.len())))?;
        foreign(set_byte_array_region(env, &arr, jbytes.as_slice()))?;
        Ok(arr)
    }

    /// Copy a byte[] to a Vec, bit for bit.
    pub fn get_byte_array(env: &JNIEnv, bytes: &JObject) -> (r: Result<Vec<u8>, BridgeError>)
        ensures
            r is Err ==> r->Err_0 is ForeignCall,
            r is Ok ==> r->Ok_0@.len() <= i32::MAX,
    {
        let len = foreign(get_array_length(env, bytes))?;
        Self::read_byte_array(env, bytes, len)
    }

    /// Copy the first `len` elements of a byte[] to a Vec, bit for bit; a buffer of `len` elements
    /// is filled.
    pub fn read_byte_array(env: &JNIEnv, bytes: &JObject, len: i32) -> (r: Result<Vec<u8>, BridgeError>)
        ensures
            r is Err ==> r->Err_0 is ForeignCall,
            r is Ok ==> r->Ok_0@.len() == buffer_size(len),
    {
        let mut buf = vec![0i8; buffer_len(len)];
        foreign(get_byte_array_region(env, bytes, &mut buf))?;
        Ok(from_jbytes(buf.as_slice()))
    }

    /// Create a new boolean[] holding `booleans`, passed as 1 for `true` and 0 for `false`.
    pub fn new_boolean_array<'local>(env: &JNIEnv<'local>, booleans: &[bool]) -> (r: Result<
        JObject<'local>,
        BridgeError,
    >)
        requires
            booleans@.len() <= i32::MAX,
        ensures
            r is Err ==> r->Err_0 is ForeignCall,
    {
        let jbooleans = to_jbooleans(booleans);
        let arr = foreign(new_boolean_array(env, java_length(jbooleans.len())))?;
        foreign(set_boolean_array_region(env, &arr, jbooleans.as_slice()))?;
        Ok(arr)
    }

    /// Copy a boolean[] to a Vec; an element other than 0 reads as `true`.
    pub fn get_boolean_array(env: &JNIEnv, booleans: &JObject) -> (r: Result<Vec<bool>, BridgeError>)
        ensures
            r is Err ==> r->Err_0 is ForeignCall,
            r is Ok ==> r->Ok_0@.len() <= i32::MAX,
    {
        let len = foreign(get_array_length(env, booleans))?;
        Self::read_boolean_array(env, booleans, len)
    }

    /// Copy the first `len` elements of a boolean[] to a Vec; an element other than 0 reads as `true`; a buffer of `len` elements
    /// is filled.
    pub fn read_boolean_array(env: &JNIEnv, booleans: &JObject, len: i32) -> (r: Result<Vec<bool>, BridgeError>)
        ensures
            r is Err ==> r->Err_0 is ForeignCall,
            r is Ok ==> r->Ok_0@.len() == buffer_size(len),
    {
        let mut buf = vec![0u8; buffer_len(len)];
        foreign(get_boolean_array_region(env, booleans, &mut buf))?;
        Ok(from_jbooleans(buf.as_slice()))
    }
}

} // verus!
