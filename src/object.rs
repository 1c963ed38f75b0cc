//! Java objects: a local reference together with the class it is declared of, and the
//! boxed primitives of `java.lang`.
use crate::class::Class;
use crate::error::{foreign, BridgeError};
use crate::primitives::java_length;
use crate::methods::{
    boolean_arg, byte_arg, construct, fits_constructor, invoke, Constructor, JavaMethod,
};
use crate::runtime::{
    auto_local, guarded, is_instance_of, is_null, new_object_array, new_string, null_ref,
    set_object_array_element,
};
use jni::objects::{AutoLocal, JObject, JValue, JValueGen, JValueOwned};
use jni::JNIEnv;
use vstd::prelude::*;

verus! {

/// The boxed-primitive classes of `java.lang`.
#[derive(PartialEq, Eq, Structural, Clone, Copy, Debug)]
pub enum BoxedKind {
    Byte,
    Long,
    Integer,
    Float,
    Double,
    Boolean,
    Character,
    Short,
}

/// The slash-separated name of the class that boxes `kind`.
pub open spec fn boxed_class_name(kind: BoxedKind) -> Seq<char> {
    match kind {
        BoxedKind::Byte => "java/lang/Byte"@,
        BoxedKind::Long => "java/lang/Long"@,
        BoxedKind::Integer => "java/lang/Integer"@,
        BoxedKind::Float => "java/lang/Float"@,
        BoxedKind::Double => "java/lang/Double"@,
        BoxedKind::Boolean => "java/lang/Boolean"@,
        BoxedKind::Character => "java/lang/Character"@,
        BoxedKind::Short => "java/lang/Short"@,
    }
}

/// The slash-separated name of the class that boxes `kind`.
pub fn boxed_name(kind: BoxedKind) -> (r: &'static str)
    ensures
        r@ == boxed_class_name(kind),
{
    match kind {
        BoxedKind::Byte => "java/lang/Byte",
        BoxedKind::Long => "java/lang/Long",
        BoxedKind::Integer => "java/lang/Integer",
        BoxedKind::Float => "java/lang/Float",
        BoxedKind::Double => "java/lang/Double",
        BoxedKind::Boolean => "java/lang/Boolean",
        BoxedKind::Character => "java/lang/Character",
        BoxedKind::Short => "java/lang/Short",
    }
}

/// `e` is the refusal of an extractor for `kind` applied to an object of class `actual`.
pub open spec fn refused_as(e: BridgeError, kind: BoxedKind, actual: Seq<char>) -> bool {
    e matches BridgeError::ClassMismatch(x, a) && x@ == boxed_class_name(kind) && a@ == actual
}

/// What an extractor for `kind` returns on an object of class `actual`: a refusal when the
/// class is not the boxing class of `kind`; otherwise the value, or a failure of the runtime.
pub open spec fn extracted_as<T>(r: Result<T, BridgeError>, kind: BoxedKind, actual: Seq<char>) -> bool {
    &&& actual != boxed_class_name(kind) ==> r is Err && refused_as(r->Err_0, kind, actual)
    &&& actual == boxed_class_name(kind) ==> (r is Ok || r->Err_0 is ForeignCall)
}

/// Two different boxed kinds have different boxing classes, so an object built as one kind
/// is refused by the extractor of every other kind before the runtime is asked.
pub proof fn lemma_wrong_extractor_refuses(built: BoxedKind, asked: BoxedKind)
    requires
        built != asked,
    ensures
        boxed_class_name(built) != boxed_class_name(asked),
{
    reveal_strlit("java/lang/Byte");
    reveal_strlit("java/lang/Long");
    reveal_strlit("java/lang/Integer");
    reveal_strlit("java/lang/Float");
    reveal_strlit("java/lang/Double");
    reveal_strlit("java/lang/Boolean");
    reveal_strlit("java/lang/Character");
    reveal_strlit("java/lang/Short");
    let a = boxed_class_name(built);
    let b = boxed_class_name(asked);
    if a.len() == b.len() {
        assert(a[10] != b[10]);
    } else {
        assert(a.len() != b.len());
    }
}

/// A Java object: a local reference, deleted when the `Object` is dropped, and the class
/// the object is declared of. The caller of `new` vouches that the two agree.
#[derive(Debug)]
pub struct Object<'local> {
    /// The reference to the object.
    pub inner: AutoLocal<'local, JObject<'local>>,
    /// The class the object is declared of.
    pub class: Class,
}

/// The object in `value`, declared of `class`; `None` when the runtime returned `null`.
pub fn nullable<'local>(env: &JNIEnv<'local>, value: JValueOwned<'local>, class: Class) -> (r:
    Result<Option<Object<'local>>, BridgeError>)
    ensures
        r is Err <==> !(value is Object),
        r is Err ==> r->Err_0 is ForeignCall,
        value matches JValueGen::Object(o) ==> (r matches Ok(None) <==> null_ref(o)),
        value matches JValueGen::Object(o) ==> (!null_ref(o) ==> (r matches Ok(Some(x)) && x.class@
            == class@)),
{
    let obj = foreign(value.l())?;
    if is_null(&obj) {
        Ok(None)
    } else {
        Ok(Some(Object::new(env, obj, class)))
    }
}

/// The byte in `value`, a `Byte` that a runtime call returned: the same bits, read unsigned.
pub fn byte_from<'local>(value: JValueOwned<'local>) -> (r: Result<u8, BridgeError>)
    ensures
        value matches JValueGen::Byte(x) ==> (r matches Ok(y) && y == x as u8),
        !(value is Byte) ==> r matches Err(BridgeError::ForeignCall(_)),
{
    let b = foreign(value.b())?;
    Ok(b as u8)
}

/// The `i64` in `value`, a `Long` that a runtime call returned.
pub fn long_from<'local>(value: JValueOwned<'local>) -> (r: Result<i64, BridgeError>)
    ensures
        value matches JValueGen::Long(x) ==> (r matches Ok(y) && y == x),
        !(value is Long) ==> r matches Err(BridgeError::ForeignCall(_)),
{
    foreign(value.j())
}

/// The `i32` in `value`, a `Int` that a runtime call returned.
pub fn int_from<'local>(value: JValueOwned<'local>) -> (r: Result<i32, BridgeError>)
    ensures
        value matches JValueGen::Int(x) ==> (r matches Ok(y) && y == x),
        !(value is Int) ==> r matches Err(BridgeError::ForeignCall(_)),
{
    foreign(value.i())
}

/// The `u16` in `value`, a `Char` that a runtime call returned.
pub fn char_from<'local>(value: JValueOwned<'local>) -> (r: Result<u16, BridgeError>)
    ensures
        value matches JValueGen::Char(x) ==> (r matches Ok(y) && y == x),
        !(value is Char) ==> r matches Err(BridgeError::ForeignCall(_)),
{
    foreign(value.c())
}

/// The `i16` in `value`, a `Short` that a runtime call returned.
pub fn short_from<'local>(value: JValueOwned<'local>) -> (r: Result<i16, BridgeError>)
    ensures
        value matches JValueGen::Short(x) ==> (r matches Ok(y) && y == x),
        !(value is Short) ==> r matches Err(BridgeError::ForeignCall(_)),
{
    foreign(value.s())
}

/// The boolean in `value`, a `Bool` that a runtime call returned: `true` exactly for 1.
pub fn boolean_from<'local>(value: JValueOwned<'local>) -> (r: Result<bool, BridgeError>)
    ensures
        value matches JValueGen::Bool(x) ==> (r matches Ok(y) && y == (x == 1)),
        !(value is Bool) ==> r matches Err(BridgeError::ForeignCall(_)),
{
    foreign(value.z())
}

impl<'local> Object<'local> {
    /// Create a new Object wrapper. The caller must guarantee that `obj` is an instance of
    /// `class`.
    pub fn new(env: &JNIEnv<'local>, obj: JObject<'local>, class: Class) -> (r: Self)
        ensures
            r.class@ == class@,
    {
        Object { inner: auto_local(env, obj), class }
    }

    /// The reference to the object.
    pub fn as_obj(&self) -> &JObject<'local> {
        guarded(&self.inner)
    }

    /// The object as an argument of a runtime call.
    pub fn as_value(&self) -> JValue<'local, '_> {
        JValue::Object(self.as_obj())
    }

    /// Create a new java.lang.String
    pub fn new_string(env: &mut JNIEnv<'local>, s: &str) -> (r: Result<Self, BridgeError>)
        ensures
            r is Ok ==> r->Ok_0.class@ == "java/lang/String"@,
            r is Err ==> r->Err_0 is ForeignCall || r->Err_0 is ClassNotFound,
    {
        let class = Class::String(env)?;
        let obj = foreign(new_string(env, s))?;
        Ok(Object::new(env, obj, class))
    }

    /// A new object of the boxing class of `kind`, built by the constructor `ctor` from
    /// `arg`, which fits it.
    fn new_boxed(env: &mut JNIEnv<'local>, kind: BoxedKind, ctor: Constructor, arg: JValue) -> (r: Result<
        Self,
        BridgeError,
    >)
        requires
            fits_constructor(ctor, seq![arg]),
        ensures
            r is Ok ==> r->Ok_0.class@ == boxed_class_name(kind),
            r is Err ==> r->Err_0 is ForeignCall || r->Err_0 is ClassNotFound,
    {
        let class = Class::lookup(env, boxed_name(kind))?;
        let args = [arg];
        assert(args@ =~= seq![arg]);
        let obj = construct(env, class.global(), ctor, &args)?;
        Ok(Object::new(env, obj, class))
    }

    /// Create a new java.lang.Byte; the byte's bits are kept.
    pub fn new_byte_object(env: &mut JNIEnv<'local>, b: u8) -> (r: Result<Self, BridgeError>)
        ensures
            r is Ok ==> r->Ok_0.class@ == boxed_class_name(BoxedKind::Byte),
            r is Err ==> r->Err_0 is ForeignCall || r->Err_0 is ClassNotFound,
    {
        Self::new_boxed(env, BoxedKind::Byte, Constructor::Byte, byte_arg(b))
    }

    /// Create a new java.lang.Long
    pub fn new_long_object(env: &mut JNIEnv<'local>, l: i64) -> (r: Result<Self, BridgeError>)
        ensures
            r is Ok ==> r->Ok_0.class@ == boxed_class_name(BoxedKind::Long),
            r is Err ==> r->Err_0 is ForeignCall || r->Err_0 is ClassNotFound,
    {
        Self::new_boxed(env, BoxedKind::Long, Constructor::Long, JValue::Long(l))
    }

    /// Create a new java.lang.Integer
    pub fn new_integer_object(env: &mut JNIEnv<'local>, i: i32) -> (r: Result<Self, BridgeError>)
        ensures
            r is Ok ==> r->Ok_0.class@ == boxed_class_name(BoxedKind::Integer),
            r is Err ==> r->Err_0 is ForeignCall || r->Err_0 is ClassNotFound,
    {
        Self::new_boxed(env, BoxedKind::Integer, Constructor::Int, JValue::Int(i))
    }

    /// Create a new java.lang.Boolean; `true` is passed as 1 and `false` as 0.
    pub fn new_boolean_object(env: &mut JNIEnv<'local>, b: bool) -> (r: Result<Self, BridgeError>)
        ensures
            r is Ok ==> r->Ok_0.class@ == boxed_class_name(BoxedKind::Boolean),
            r is Err ==> r->Err_0 is ForeignCall || r->Err_0 is ClassNotFound,
    {
        Self::new_boxed(env, BoxedKind::Boolean, Constructor::Boolean, boolean_arg(b))
    }

    /// Create a new java.lang.Character from a UTF-16 code unit.
    pub fn new_character_object(env: &mut JNIEnv<'local>, c: u16) -> (r: Result<Self, BridgeError>)
        ensures
            r is Ok ==> r->Ok_0.class@ == boxed_class_name(BoxedKind::Character),
            r is Err ==> r->Err_0 is ForeignCall || r->Err_0 is ClassNotFound,
    {
        Self::new_boxed(env, BoxedKind::Character, Constructor::Char, JValue::Char(c))
    }

    /// Create a new java.lang.Short
    pub fn new_short_object(env: &mut JNIEnv<'local>, s: i16) -> (r: Result<Self, BridgeError>)
        ensures
            r is Ok ==> r->Ok_0.class@ == boxed_class_name(BoxedKind::Short),
            r is Err ==> r->Err_0 is ForeignCall || r->Err_0 is ClassNotFound,
    {
        Self::new_boxed(env, BoxedKind::Short, Constructor::Short, JValue::Short(s))
    }

    /// Create an array of `class` holding the objects of `data`. The caller must guarantee
    /// that every object of `data` is an instance of `class`.
    pub fn new_array(env: &mut JNIEnv<'local>, class: Class, data: &[Self]) -> (r: Result<
        Self,
        BridgeError,
    >)
        requires
            data@.len() <= i32::MAX,
        ensures
            r is Err ==> r->Err_0 is ForeignCall,
    {
        let arr = foreign(new_object_array(env, java_length(data.len()), class.global()))?;
        let mut i: usize = 0;
        while i < data.len()
            invariant
                i <= data@.len() <= i32::MAX,
            decreases data@.len() - i,
        {
            foreign(set_object_array_element(env, &arr, java_length(i), data[i].as_obj()))?;
            i = i + 1;
        }
        let array_class = class.array_type(env)?;
        Ok(Object::new(env, arr, array_class))
    }

    /// Call java.lang.Object#getClass() on this object.
    pub fn get_class_of_self(&self, env: &mut JNIEnv<'local>) -> (r: Result<Class, BridgeError>)
        ensures
            r is Err ==> r->Err_0 is ForeignCall || r->Err_0 is ClassNotFound,
    {
        Self::get_class(self, env)
    }

    /// Call java.lang.Object#getClass() on `obj`, read the class's name, and resolve the
    /// class again by that name.
    pub fn get_class(obj: &Object<'local>, env: &mut JNIEnv<'local>) -> (r: Result<Class, BridgeError>)
        ensures
            r is Err ==> r->Err_0 is ForeignCall || r->Err_0 is ClassNotFound,
    {
        let value = invoke(env, obj.as_obj(), JavaMethod::ObjectGetClass, &[])?;
        let class_object = auto_local(env, foreign(value.l())?);
        let class_name = Class::runtime_name(env, guarded(&class_object))?;
        Class::for_name(env, class_name.as_str())
    }

    /// Refuses, without asking the runtime, an object whose declared class is not the boxing
    /// class of `kind`.
    pub fn expect_boxed(&self, kind: BoxedKind) -> (r: Result<(), BridgeError>)
        ensures
            r is Ok <==> self.class@ == boxed_class_name(kind),
            r is Err ==> refused_as(r->Err_0, kind, self.class@),
    {
        let expected = boxed_name(kind).to_owned();
        let actual = self.class.name().to_owned();
        if actual == expected {
            Ok(())
        } else {
            Err(BridgeError::ClassMismatch(expected, actual))
        }
    }

    /// Get the byte value from this Object. The Object must be of type java.lang.Byte
    pub fn get_byte(&self, env: &mut JNIEnv<'local>) -> (r: Result<u8, BridgeError>)
        ensures
            extracted_as(r, BoxedKind::Byte, self.class@),
    {
        self.expect_boxed(BoxedKind::Byte)?;
        let value = invoke(env, self.as_obj(), JavaMethod::ByteValue, &[])?;
        byte_from(value)
    }

    /// Get the long value from this Object. The Object must be of type java.lang.Long
    pub fn get_long(&self, env: &mut JNIEnv<'local>) -> (r: Result<i64, BridgeError>)
        ensures
            extracted_as(r, BoxedKind::Long, self.class@),
    {
        self.expect_boxed(BoxedKind::Long)?;
        let value = invoke(env, self.as_obj(), JavaMethod::LongValue, &[])?;
        long_from(value)
    }

    /// Get the int value from this Object. The Object must be of type java.lang.Integer
    pub fn get_integer(&self, env: &mut JNIEnv<'local>) -> (r: Result<i32, BridgeError>)
        ensures
            extracted_as(r, BoxedKind::Integer, self.class@),
    {
        self.expect_boxed(BoxedKind::Integer)?;
        let value = invoke(env, self.as_obj(), JavaMethod::IntValue, &[])?;
        int_from(value)
    }

    /// Get the boolean value from this Object. The Object must be of type java.lang.Boolean
    pub fn get_boolean(&self, env: &mut JNIEnv<'local>) -> (r: Result<bool, BridgeError>)
        ensures
            extracted_as(r, BoxedKind::Boolean, self.class@),
    {
        self.expect_boxed(BoxedKind::Boolean)?;
        let value = invoke(env, self.as_obj(), JavaMethod::BooleanValue, &[])?;
        boolean_from(value)
    }

    /// Get the char value from this Object. The Object must be of type java.lang.Character.
    /// A Java character is one UTF-16 code unit.
    pub fn get_char(&self, env: &mut JNIEnv<'local>) -> (r: Result<u16, BridgeError>)
        ensures
            extracted_as(r, BoxedKind::Character, self.class@),
    {
        self.expect_boxed(BoxedKind::Character)?;
        let value = invoke(env, self.as_obj(), JavaMethod::CharValue, &[])?;
        char_from(value)
    }

    /// Get the short value from this Object. The Object must be of type java.lang.Short
    pub fn get_short(&self, env: &mut JNIEnv<'local>) -> (r: Result<i16, BridgeError>)
        ensures
            extracted_as(r, BoxedKind::Short, self.class@),
    {
        self.expect_boxed(BoxedKind::Short)?;
        let value = invoke(env, self.as_obj(), JavaMethod::ShortValue, &[])?;
        short_from(value)
    }

    /// Whether this object is an instance of `class`.
    pub fn instance_of_class(&self, env: &mut JNIEnv<'local>, class: &Class) -> (r: Result<
        bool,
        BridgeError,
    >)
        ensures
            r is Err ==> r->Err_0 is ForeignCall,
    {
        foreign(is_instance_of(env, self.as_obj(), class.global()))
    }

    /// Whether this object is an instance of the class `other` is declared of.
    pub fn instance_of_same_object(&self, env: &mut JNIEnv<'local>, other: &Self) -> (r: Result<
        bool,
        BridgeError,
    >)
        ensures
            r is Err ==> r->Err_0 is ForeignCall,
    {
        foreign(is_instance_of(env, self.as_obj(), other.class.global()))
    }

    /// java.lang.Object#equals: the object's own notion of equality, not identity.
    pub fn equals(&self, env: &mut JNIEnv<'local>, other: &Self) -> (r: Result<bool, BridgeError>)
        ensures
            r is Err ==> r->Err_0 is ForeignCall,
    {
        let args = [other.as_value()];
        let value = invoke(env, self.as_obj(), JavaMethod::ObjectEquals, &args)?;
        foreign(value.z())
    }
}

} // verus!
