//! Java classes: looked up by name, held by a global reference, and known by their
//! slash-separated qualified name.
use crate::error::{foreign, BridgeError};
use crate::methods::{invoke, invoke_static, JavaMethod};
use crate::runtime::{
    auto_local, class_object, delete_local_ref, exception_clear, find_class, get_object_class,
    get_string, get_superclass, global_object, guarded, is_assignable_from, is_null, new_global_ref,
    new_object_array, new_string, null_ref,
};
use jni::objects::{GlobalRef, JClass, JObject, JValue};
use jni::JNIEnv;
use vstd::prelude::*;

verus! {

/// `name` with every `.` replaced by `/`: the form in which the runtime resolves class names.
pub open spec fn slash_form(name: Seq<char>) -> Seq<char> {
    name.map_values(|c: char| if c == '.' { '/' } else { c })
}

/// What a failed lookup of `name` reports: that the class was not found, or a failure of
/// the runtime after it was found.
pub open spec fn lookup_failed(e: BridgeError, name: Seq<char>) -> bool {
    ||| (e matches BridgeError::ClassNotFound(n) && n@ == name)
    ||| e is ForeignCall
}

/// Relies on `str::replace`: each `from` character of `s` becomes the one character of `to`,
/// and every other character is kept.
#[verifier::external_body]
fn replace_char(s: &str, from: char, to: &str) -> (r: String)
    requires
        to@.len() == 1,
    ensures
        r@ == s@.map_values(|c: char| if c == from { to@[0] } else { c }),
{
    s.replace(from, to)
}

/// A class name in the form the runtime resolves: each `.` becomes `/`.
pub fn slashed(name: &str) -> (r: String)
    ensures
        r@ == slash_form(name@),
{
    proof {
        reveal_strlit("/");
    }
    let r = replace_char(name, '.', "/");
    assert(r@ =~= slash_form(name@));
    r
}

/// A dotted name and the same name with slashes are resolved alike: `for_name` hands the
/// runtime the same slash-separated name for both, a class found under either carries that
/// name, and a failed lookup under either reports it.
pub proof fn lemma_dot_and_slash_agree(dotted: Seq<char>, slashed_name: Seq<char>)
    requires
        dotted.len() == slashed_name.len(),
        forall|i: int|
            0 <= i < dotted.len() ==> {
                ||| dotted[i] == slashed_name[i]
                ||| (dotted[i] == '.' && slashed_name[i] == '/')
            },
    ensures
        slash_form(dotted) == slash_form(slashed_name),
{
    assert(slash_form(dotted) =~= slash_form(slashed_name));
}

/// A Java class: `java.lang.Class` held by a global reference, so that it outlives the
/// local frame it was found in and can be shared by every object declared of it.
#[derive(Debug)]
pub struct Class {
    /// The class object.
    pub class: GlobalRef,
    name: String,
}

impl View for Class {
    type V = Seq<char>;

    /// The qualified name of the class, slash-separated (`java/lang/String`).
    closed spec fn view(&self) -> Seq<char> {
        self.name@
    }
}

impl Clone for Class {
    fn clone(&self) -> (r: Self)
        ensures
            r@ == self@,
    {
        Class { class: self.class.clone(), name: self.name.clone() }
    }
}

#[allow(non_snake_case)]
impl Class {
    /// Wrap a class reference. Its name is read from the runtime (`Class#getName`).
    pub fn new<'local>(env: &mut JNIEnv<'local>, class: JClass<'local>) -> (r: Result<Class, BridgeError>)
        ensures
            r is Err ==> r->Err_0 is ForeignCall,
    {
        Self::from_local(env, class_object(class))
    }

    /// The global reference to the class object.
    pub fn global(&self) -> &GlobalRef {
        &self.class
    }

    /// The slash-separated qualified name of the class.
    pub fn name(&self) -> (r: &str)
        ensures
            r@ == self@,
    {
        self.name.as_str()
    }

    /// Holds a local class reference by a global one, frees the local one, and asks the
    /// runtime for the name.
    fn from_local<'local>(env: &mut JNIEnv<'local>, local: JObject<'local>) -> (r: Result<Class, BridgeError>)
        ensures
            r is Err ==> r->Err_0 is ForeignCall,
    {
        let class = foreign(new_global_ref(env, &local))?;
        foreign(delete_local_ref(env, local))?;
        let dotted = Self::runtime_name(env, global_object(&class))?;
        let name = slashed(dotted.as_str());
        Ok(Class { class, name })
    }

    /// `Class#getName` of a class.
    pub(crate) fn runtime_name<'local>(env: &mut JNIEnv<'local>, class: &JObject) -> (r: Result<String, BridgeError>)
        ensures
            r is Err ==> r->Err_0 is ForeignCall,
    {
        let value = invoke(env, class, JavaMethod::ClassGetName, &[])?;
        let name = auto_local(env, foreign(value.l())?);
        foreign(get_string(env, guarded(&name)))
    }

    /// What a lookup of `name` gives once the runtime has answered with `found`: `None`, or
    /// Java's `null`, means no such class, reported as `ClassNotFound(name)` with the
    /// runtime's pending exception cleared; a class reference is held by a global reference
    /// and known by `name`.
    pub fn resolved<'local>(env: &mut JNIEnv<'local>, found: Option<JObject<'local>>, name: &str) -> (r:
        Result<Class, BridgeError>)
        ensures
            found is None ==> (r matches Err(BridgeError::ClassNotFound(n)) && n@ == name@),
            found matches Some(o) && null_ref(o) ==> (r matches Err(BridgeError::ClassNotFound(n))
                && n@ == name@),
            found matches Some(o) && !null_ref(o) ==> (r is Ok && r->Ok_0@ == name@) || r matches Err(
                BridgeError::ForeignCall(_),
            ),
    {
        let local = match found {
            Some(local) => local,
            None => {
                let _ = exception_clear(env);
                return Err(BridgeError::ClassNotFound(name.to_owned()));
            },
        };
        if is_null(&local) {
            return Err(BridgeError::ClassNotFound(name.to_owned()));
        }
        let class = foreign(new_global_ref(env, &local))?;
        foreign(delete_local_ref(env, local))?;
        Ok(Class { class, name: name.to_owned() })
    }

    /// Resolves a class by its slash-separated name. A class that cannot be found leaves no
    /// exception pending.
    pub(crate) fn lookup<'local>(env: &mut JNIEnv<'local>, name: &str) -> (r: Result<Class, BridgeError>)
        ensures
            r is Ok ==> r->Ok_0@ == name@,
            r is Err ==> lookup_failed(r->Err_0, name@),
    {
        let found = match find_class(env, name) {
            Ok(local) => Some(local),
            Err(_) => None,
        };
        Self::resolved(env, found, name)
    }

    /// Resolves a primitive type through `Class.getPrimitiveClass`, as primitive types have
    /// no class that can be loaded by name.
    fn primitive<'local>(env: &mut JNIEnv<'local>, name: &str) -> (r: Result<Class, BridgeError>)
        ensures
            r is Ok ==> r->Ok_0@ == name@,
            r is Err ==> lookup_failed(r->Err_0, name@),
    {
        let class_class = match Self::lookup(env, "java/lang/Class") {
            Ok(c) => c,
            Err(_) => return Err(BridgeError::ClassNotFound(name.to_owned())),
        };
        let jname = auto_local(env, foreign(new_string(env, name))?);
        let args = [JValue::Object(guarded(&jname))];
        let found = match invoke_static(env, &class_class.class, JavaMethod::ClassGetPrimitiveClass, &args) {
            Ok(value) => match value.l() {
                Ok(obj) => Some(obj),
                Err(_) => None,
            },
            Err(_) => None,
        };
        Self::resolved(env, found, name)
    }

    /// Find a class by its Java name, given as `java/lang/String` or as `java.lang.String`.
    pub fn for_name<'local>(env: &mut JNIEnv<'local>, name: &str) -> (r: Result<Class, BridgeError>)
        ensures
            r is Ok ==> r->Ok_0@ == slash_form(name@),
            r is Err ==> lookup_failed(r->Err_0, slash_form(name@)),
    {
        let name_patched = slashed(name);
        Self::lookup(env, name_patched.as_str())
    }

    /// The array type of this class: `java.lang.String` gives `java.lang.String[]`. The
    /// runtime has no direct query for it, so a zero-length array is made and asked for its
    /// class.
    pub fn array_type<'local>(&self, env: &mut JNIEnv<'local>) -> (r: Result<Class, BridgeError>)
        ensures
            r is Err ==> r->Err_0 is ForeignCall,
    {
        let arr = foreign(new_object_array(env, 0, &self.class))?;
        let arr_class = foreign(get_object_class(env, &arr))?;
        foreign(delete_local_ref(env, arr))?;
        Self::from_local(env, arr_class)
    }

    /// Whether this class can be cast to `other`: `java.util.HashMap` can be cast to
    /// `java.util.Map`.
    pub fn is_compatible<'local>(&self, env: &mut JNIEnv<'local>, other: &Class) -> (r: Result<bool, BridgeError>)
        ensures
            r is Err ==> r->Err_0 is ForeignCall,
    {
        foreign(is_assignable_from(env, &self.class, &other.class))
    }

    /// The superclass of this class. `None` both for `java.lang.Object` and for an
    /// interface: the two are not told apart.
    pub fn get_superclass<'local>(&self, env: &mut JNIEnv<'local>) -> (r: Result<Option<Class>, BridgeError>)
        ensures
            r is Err ==> r->Err_0 is ForeignCall,
    {
        match foreign(get_superclass(env, &self.class))? {
            None => Ok(None),
            Some(local) => Ok(Some(Self::from_local(env, local)?)),
        }
    }

    /// The class name as the runtime gives it (`Class#getName`, dot-separated).
    pub fn get_name<'local>(&self, env: &mut JNIEnv<'local>) -> (r: Result<String, BridgeError>)
        ensures
            r is Err ==> r->Err_0 is ForeignCall,
    {
        Self::runtime_name(env, global_object(&self.class))
    }

    /// java.lang.Byte
    pub fn Byte<'local>(env: &mut JNIEnv<'local>) -> (r: Result<Class, BridgeError>)
        ensures
            r is Ok ==> r->Ok_0@ == "java/lang/Byte"@,
            r is Err ==> lookup_failed(r->Err_0, "java/lang/Byte"@),
    {
        Self::lookup(env, "java/lang/Byte")
    }

    /// java.lang.Boolean
    pub fn Boolean<'local>(env: &mut JNIEnv<'local>) -> (r: Result<Class, BridgeError>)
        ensures
            r is Ok ==> r->Ok_0@ == "java/lang/Boolean"@,
            r is Err ==> lookup_failed(r->Err_0, "java/lang/Boolean"@),
    {
        Self::lookup(env, "java/lang/Boolean")
    }

    /// java.lang.Float
    pub fn Float<'local>(env: &mut JNIEnv<'local>) -> (r: Result<Class, BridgeError>)
        ensures
            r is Ok ==> r->Ok_0@ == "java/lang/Float"@,
            r is Err ==> lookup_failed(r->Err_0, "java/lang/Float"@),
    {
        Self::lookup(env, "java/lang/Float")
    }

    /// java.lang.Integer
    pub fn Integer<'local>(env: &mut JNIEnv<'local>) -> (r: Result<Class, BridgeError>)
        ensures
            r is Ok ==> r->Ok_0@ == "java/lang/Integer"@,
            r is Err ==> lookup_failed(r->Err_0, "java/lang/Integer"@),
    {
        Self::lookup(env, "java/lang/Integer")
    }

    /// java.lang.Double
    pub fn Double<'local>(env: &mut JNIEnv<'local>) -> (r: Result<Class, BridgeError>)
        ensures
            r is Ok ==> r->Ok_0@ == "java/lang/Double"@,
            r is Err ==> lookup_failed(r->Err_0, "java/lang/Double"@),
    {
        Self::lookup(env, "java/lang/Double")
    }

    /// java.lang.Short
    pub fn Short<'local>(env: &mut JNIEnv<'local>) -> (r: Result<Class, BridgeError>)
        ensures
            r is Ok ==> r->Ok_0@ == "java/lang/Short"@,
            r is Err ==> lookup_failed(r->Err_0, "java/lang/Short"@),
    {
        Self::lookup(env, "java/lang/Short")
    }

    /// java.lang.Long
    pub fn Long<'local>(env: &mut JNIEnv<'local>) -> (r: Result<Class, BridgeError>)
        ensures
            r is Ok ==> r->Ok_0@ == "java/lang/Long"@,
            r is Err ==> lookup_failed(r->Err_0, "java/lang/Long"@),
    {
        Self::lookup(env, "java/lang/Long")
    }

    /// java.lang.Object
    pub fn Object<'local>(env: &mut JNIEnv<'local>) -> (r: Result<Class, BridgeError>)
        ensures
            r is Ok ==> r->Ok_0@ == "java/lang/Object"@,
            r is Err ==> lookup_failed(r->Err_0, "java/lang/Object"@),
    {
        Self::lookup(env, "java/lang/Object")
    }

    /// java.lang.Class
    pub fn Class<'local>(env: &mut JNIEnv<'local>) -> (r: Result<Class, BridgeError>)
        ensures
            r is Ok ==> r->Ok_0@ == "java/lang/Class"@,
            r is Err ==> lookup_failed(r->Err_0, "java/lang/Class"@),
    {
        Self::lookup(env, "java/lang/Class")
    }

    /// java.lang.System
    pub fn System<'local>(env: &mut JNIEnv<'local>) -> (r: Result<Class, BridgeError>)
        ensures
            r is Ok ==> r->Ok_0@ == "java/lang/System"@,
            r is Err ==> lookup_failed(r->Err_0, "java/lang/System"@),
    {
        Self::lookup(env, "java/lang/System")
    }

    /// java.lang.CharSequence
    pub fn CharSequence<'local>(env: &mut JNIEnv<'local>) -> (r: Result<Class, BridgeError>)
        ensures
            r is Ok ==> r->Ok_0@ == "java/lang/CharSequence"@,
            r is Err ==> lookup_failed(r->Err_0, "java/lang/CharSequence"@),
    {
        Self::lookup(env, "java/lang/CharSequence")
    }

    /// java.lang.Math
    pub fn Math<'local>(env: &mut JNIEnv<'local>) -> (r: Result<Class, BridgeError>)
        ensures
            r is Ok ==> r->Ok_0@ == "java/lang/Math"@,
            r is Err ==> lookup_failed(r->Err_0, "java/lang/Math"@),
    {
        Self::lookup(env, "java/lang/Math")
    }

    /// java.lang.Record
    pub fn Record<'local>(env: &mut JNIEnv<'local>) -> (r: Result<Class, BridgeError>)
        ensures
            r is Ok ==> r->Ok_0@ == "java/lang/Record"@,
            r is Err ==> lookup_failed(r->Err_0, "java/lang/Record"@),
    {
        Self::lookup(env, "java/lang/Record")
    }

    /// java.lang.String
    pub fn String<'local>(env: &mut JNIEnv<'local>) -> (r: Result<Class, BridgeError>)
        ensures
            r is Ok ==> r->Ok_0@ == "java/lang/String"@,
            r is Err ==> lookup_failed(r->Err_0, "java/lang/String"@),
    {
        Self::lookup(env, "java/lang/String")
    }

    /// java.lang.StringBuilder
    pub fn StringBuilder<'local>(env: &mut JNIEnv<'local>) -> (r: Result<Class, BridgeError>)
        ensures
            r is Ok ==> r->Ok_0@ == "java/lang/StringBuilder"@,
            r is Err ==> lookup_failed(r->Err_0, "java/lang/StringBuilder"@),
    {
        Self::lookup(env, "java/lang/StringBuilder")
    }

    /// java.math.BigDecimal
    pub fn BigDecimal<'local>(env: &mut JNIEnv<'local>) -> (r: Result<Class, BridgeError>)
        ensures
            r is Ok ==> r->Ok_0@ == "java/math/BigDecimal"@,
            r is Err ==> lookup_failed(r->Err_0, "java/math/BigDecimal"@),
    {
        Self::lookup(env, "java/math/BigDecimal")
    }

    /// java.math.BigInteger
    pub fn BigInteger<'local>(env: &mut JNIEnv<'local>) -> (r: Result<Class, BridgeError>)
        ensures
            r is Ok ==> r->Ok_0@ == "java/math/BigInteger"@,
            r is Err ==> lookup_failed(r->Err_0, "java/math/BigInteger"@),
    {
        Self::lookup(env, "java/math/BigInteger")
    }

    /// java.lang.reflect.Array
    pub fn Array<'local>(env: &mut JNIEnv<'local>) -> (r: Result<Class, BridgeError>)
        ensures
            r is Ok ==> r->Ok_0@ == "java/lang/reflect/Array"@,
            r is Err ==> lookup_failed(r->Err_0, "java/lang/reflect/Array"@),
    {
        Self::lookup(env, "java/lang/reflect/Array")
    }

    /// java.lang.reflect.Field
    pub fn Field<'local>(env: &mut JNIEnv<'local>) -> (r: Result<Class, BridgeError>)
        ensures
            r is Ok ==> r->Ok_0@ == "java/lang/reflect/Field"@,
            r is Err ==> lookup_failed(r->Err_0, "java/lang/reflect/Field"@),
    {
        Self::lookup(env, "java/lang/reflect/Field")
    }

    /// java.lang.reflect.Method
    pub fn Method<'local>(env: &mut JNIEnv<'local>) -> (r: Result<Class, BridgeError>)
        ensures
            r is Ok ==> r->Ok_0@ == "java/lang/reflect/Method"@,
            r is Err ==> lookup_failed(r->Err_0, "java/lang/reflect/Method"@),
    {
        Self::lookup(env, "java/lang/reflect/Method")
    }

    /// java.lang.reflect.Constructor
    pub fn Constructor<'local>(env: &mut JNIEnv<'local>) -> (r: Result<Class, BridgeError>)
        ensures
            r is Ok ==> r->Ok_0@ == "java/lang/reflect/Constructor"@,
            r is Err ==> lookup_failed(r->Err_0, "java/lang/reflect/Constructor"@),
    {
        Self::lookup(env, "java/lang/reflect/Constructor")
    }

    /// java.util.Uuid
    pub fn Uuid<'local>(env: &mut JNIEnv<'local>) -> (r: Result<Class, BridgeError>)
        ensures
            r is Ok ==> r->Ok_0@ == "java/util/UUID"@,
            r is Err ==> lookup_failed(r->Err_0, "java/util/UUID"@),
    {
        Self::lookup(env, "java/util/UUID")
    }

    /// java.util.Vector
    pub fn Vector<'local>(env: &mut JNIEnv<'local>) -> (r: Result<Class, BridgeError>)
        ensures
            r is Ok ==> r->Ok_0@ == "java/util/Vector"@,
            r is Err ==> lookup_failed(r->Err_0, "java/util/Vector"@),
    {
        Self::lookup(env, "java/util/Vector")
    }

    /// java.util.Map.Entry
    pub fn MapEntry<'local>(env: &mut JNIEnv<'local>) -> (r: Result<Class, BridgeError>)
        ensures
            r is Ok ==> r->Ok_0@ == "java/util/Map$Entry"@,
            r is Err ==> lookup_failed(r->Err_0, "java/util/Map$Entry"@),
    {
        Self::lookup(env, "java/util/Map$Entry")
    }

    /// java.util.Set
    pub fn Set_<'local>(env: &mut JNIEnv<'local>) -> (r: Result<Class, BridgeError>)
        ensures
            r is Ok ==> r->Ok_0@ == "java/util/Set"@,
            r is Err ==> lookup_failed(r->Err_0, "java/util/Set"@),
    {
        Self::lookup(env, "java/util/Set")
    }

    /// java.util.Scanner
    pub fn Scanner<'local>(env: &mut JNIEnv<'local>) -> (r: Result<Class, BridgeError>)
        ensures
            r is Ok ==> r->Ok_0@ == "java/util/Scanner"@,
            r is Err ==> lookup_failed(r->Err_0, "java/util/Scanner"@),
    {
        Self::lookup(env, "java/util/Scanner")
    }

    /// java.util.Random
    pub fn Random<'local>(env: &mut JNIEnv<'local>) -> (r: Result<Class, BridgeError>)
        ensures
            r is Ok ==> r->Ok_0@ == "java/util/Random"@,
            r is Err ==> lookup_failed(r->Err_0, "java/util/Random"@),
    {
        Self::lookup(env, "java/util/Random")
    }

    /// java.util.Properties
    pub fn Properties<'local>(env: &mut JNIEnv<'local>) -> (r: Result<Class, BridgeError>)
        ensures
            r is Ok ==> r->Ok_0@ == "java/util/Properties"@,
            r is Err ==> lookup_failed(r->Err_0, "java/util/Properties"@),
    {
        Self::lookup(env, "java/util/Properties")
    }

    /// java.util.Optional
    pub fn Optional<'local>(env: &mut JNIEnv<'local>) -> (r: Result<Class, BridgeError>)
        ensures
            r is Ok ==> r->Ok_0@ == "java/util/Optional"@,
            r is Err ==> lookup_failed(r->Err_0, "java/util/Optional"@),
    {
        Self::lookup(env, "java/util/Optional")
    }

    /// java.util.Objects
    pub fn Objects<'local>(env: &mut JNIEnv<'local>) -> (r: Result<Class, BridgeError>)
        ensures
            r is Ok ==> r->Ok_0@ == "java/util/Objects"@,
            r is Err ==> lookup_failed(r->Err_0, "java/util/Objects"@),
    {
        Self::lookup(env, "java/util/Objects")
    }

    /// java.util.Map
    pub fn Map_<'local>(env: &mut JNIEnv<'local>) -> (r: Result<Class, BridgeError>)
        ensures
            r is Ok ==> r->Ok_0@ == "java/util/Map"@,
            r is Err ==> lookup_failed(r->Err_0, "java/util/Map"@),
    {
        Self::lookup(env, "java/util/Map")
    }

    /// java.util.Locale
    pub fn Locale<'local>(env: &mut JNIEnv<'local>) -> (r: Result<Class, BridgeError>)
        ensures
            r is Ok ==> r->Ok_0@ == "java/util/Locale"@,
            r is Err ==> lookup_failed(r->Err_0, "java/util/Locale"@),
    {
        Self::lookup(env, "java/util/Locale")
    }

    /// java.util.List
    pub fn List<'local>(env: &mut JNIEnv<'local>) -> (r: Result<Class, BridgeError>)
        ensures
            r is Ok ==> r->Ok_0@ == "java/util/List"@,
            r is Err ==> lookup_failed(r->Err_0, "java/util/List"@),
    {
        Self::lookup(env, "java/util/List")
    }

    /// java.util.LinkedList
    pub fn LinkedList<'local>(env: &mut JNIEnv<'local>) -> (r: Result<Class, BridgeError>)
        ensures
            r is Ok ==> r->Ok_0@ == "java/util/LinkedList"@,
            r is Err ==> lookup_failed(r->Err_0, "java/util/LinkedList"@),
    {
        Self::lookup(env, "java/util/LinkedList")
    }

    /// java.util.LinkedHashSet
    pub fn LinkedHashSet<'local>(env: &mut JNIEnv<'local>) -> (r: Result<Class, BridgeError>)
        ensures
            r is Ok ==> r->Ok_0@ == "java/util/LinkedHashSet"@,
            r is Err ==> lookup_failed(r->Err_0, "java/util/LinkedHashSet"@),
    {
        Self::lookup(env, "java/util/LinkedHashSet")
    }

    /// java.util.LinkedHashMap
    pub fn LinkedHashMap<'local>(env: &mut JNIEnv<'local>) -> (r: Result<Class, BridgeError>)
        ensures
            r is Ok ==> r->Ok_0@ == "java/util/LinkedHashMap"@,
            r is Err ==> lookup_failed(r->Err_0, "java/util/LinkedHashMap"@),
    {
        Self::lookup(env, "java/util/LinkedHashMap")
    }

    /// java.util.Iterator
    pub fn Iterator<'local>(env: &mut JNIEnv<'local>) -> (r: Result<Class, BridgeError>)
        ensures
            r is Ok ==> r->Ok_0@ == "java/util/Iterator"@,
            r is Err ==> lookup_failed(r->Err_0, "java/util/Iterator"@),
    {
        Self::lookup(env, "java/util/Iterator")
    }

    /// java.util.IdentityHashMap
    pub fn IdentityHashMap<'local>(env: &mut JNIEnv<'local>) -> (r: Result<Class, BridgeError>)
        ensures
            r is Ok ==> r->Ok_0@ == "java/util/IdentityHashMap"@,
            r is Err ==> lookup_failed(r->Err_0, "java/util/IdentityHashMap"@),
    {
        Self::lookup(env, "java/util/IdentityHashMap")
    }

    /// java.util.HashTable
    pub fn Hashtable<'local>(env: &mut JNIEnv<'local>) -> (r: Result<Class, BridgeError>)
        ensures
            r is Ok ==> r->Ok_0@ == "java/util/Hashtable"@,
            r is Err ==> lookup_failed(r->Err_0, "java/util/Hashtable"@),
    {
        Self::lookup(env, "java/util/Hashtable")
    }

    /// java.util.HashSet
    pub fn HashSet<'local>(env: &mut JNIEnv<'local>) -> (r: Result<Class, BridgeError>)
        ensures
            r is Ok ==> r->Ok_0@ == "java/util/HashSet"@,
            r is Err ==> lookup_failed(r->Err_0, "java/util/HashSet"@),
    {
        Self::lookup(env, "java/util/HashSet")
    }

    /// java.util.HashMap
    pub fn HashMap<'local>(env: &mut JNIEnv<'local>) -> (r: Result<Class, BridgeError>)
        ensures
            r is Ok ==> r->Ok_0@ == "java/util/HashMap"@,
            r is Err ==> lookup_failed(r->Err_0, "java/util/HashMap"@),
    {
        Self::lookup(env, "java/util/HashMap")
    }

    /// java.util.EnumSet
    pub fn EnumSet<'local>(env: &mut JNIEnv<'local>) -> (r: Result<Class, BridgeError>)
        ensures
            r is Ok ==> r->Ok_0@ == "java/util/EnumSet"@,
            r is Err ==> lookup_failed(r->Err_0, "java/util/EnumSet"@),
    {
        Self::lookup(env, "java/util/EnumSet")
    }

    /// java.util.EnumMap
    pub fn EnumMap<'local>(env: &mut JNIEnv<'local>) -> (r: Result<Class, BridgeError>)
        ensures
            r is Ok ==> r->Ok_0@ == "java/util/EnumMap"@,
            r is Err ==> lookup_failed(r->Err_0, "java/util/EnumMap"@),
    {
        Self::lookup(env, "java/util/EnumMap")
    }

    /// java.util.Enumeration
    pub fn Enumeration<'local>(env: &mut JNIEnv<'local>) -> (r: Result<Class, BridgeError>)
        ensures
            r is Ok ==> r->Ok_0@ == "java/util/Enumeration"@,
            r is Err ==> lookup_failed(r->Err_0, "java/util/Enumeration"@),
    {
        Self::lookup(env, "java/util/Enumeration")
    }

    /// java.util.Comparator
    pub fn Comparator<'local>(env: &mut JNIEnv<'local>) -> (r: Result<Class, BridgeError>)
        ensures
            r is Ok ==> r->Ok_0@ == "java/util/Comparator"@,
            r is Err ==> lookup_failed(r->Err_0, "java/util/Comparator"@),
    {
        Self::lookup(env, "java/util/Comparator")
    }

    /// java.util.Comparators
    pub fn Comparators<'local>(env: &mut JNIEnv<'local>) -> (r: Result<Class, BridgeError>)
        ensures
            r is Ok ==> r->Ok_0@ == "java/util/Comparators"@,
            r is Err ==> lookup_failed(r->Err_0, "java/util/Comparators"@),
    {
        Self::lookup(env, "java/util/Comparators")
    }

    /// java.util.Collection
    pub fn Collection<'local>(env: &mut JNIEnv<'local>) -> (r: Result<Class, BridgeError>)
        ensures
            r is Ok ==> r->Ok_0@ == "java/util/Collection"@,
            r is Err ==> lookup_failed(r->Err_0, "java/util/Collection"@),
    {
        Self::lookup(env, "java/util/Collection")
    }

    /// java.util.Base64
    pub fn Base64<'local>(env: &mut JNIEnv<'local>) -> (r: Result<Class, BridgeError>)
        ensures
            r is Ok ==> r->Ok_0@ == "java/util/Base64"@,
            r is Err ==> lookup_failed(r->Err_0, "java/util/Base64"@),
    {
        Self::lookup(env, "java/util/Base64")
    }

    /// java.util.Arrays
    pub fn Arrays<'local>(env: &mut JNIEnv<'local>) -> (r: Result<Class, BridgeError>)
        ensures
            r is Ok ==> r->Ok_0@ == "java/util/Arrays"@,
            r is Err ==> lookup_failed(r->Err_0, "java/util/Arrays"@),
    {
        Self::lookup(env, "java/util/Arrays")
    }

    /// java.util.ArrayList
    pub fn ArrayList<'local>(env: &mut JNIEnv<'local>) -> (r: Result<Class, BridgeError>)
        ensures
            r is Ok ==> r->Ok_0@ == "java/util/ArrayList"@,
            r is Err ==> lookup_failed(r->Err_0, "java/util/ArrayList"@),
    {
        Self::lookup(env, "java/util/ArrayList")
    }

    /// java.util.concurrent.atomic.AtomicInteger
    pub fn AtomicInteger<'local>(env: &mut JNIEnv<'local>) -> (r: Result<Class, BridgeError>)
        ensures
            r is Ok ==> r->Ok_0@ == "java/util/concurrent/atomic/AtomicInteger"@,
            r is Err ==> lookup_failed(r->Err_0, "java/util/concurrent/atomic/AtomicInteger"@),
    {
        Self::lookup(env, "java/util/concurrent/atomic/AtomicInteger")
    }

    /// java.util.concurrent.atomic.AtomicLong
    pub fn AtomicLong<'local>(env: &mut JNIEnv<'local>) -> (r: Result<Class, BridgeError>)
        ensures
            r is Ok ==> r->Ok_0@ == "java/util/concurrent/atomic/AtomicLong"@,
            r is Err ==> lookup_failed(r->Err_0, "java/util/concurrent/atomic/AtomicLong"@),
    {
        Self::lookup(env, "java/util/concurrent/atomic/AtomicLong")
    }

    /// java.util.concurrent.atomic.AtomicReference
    pub fn AtomicReference<'local>(env: &mut JNIEnv<'local>) -> (r: Result<Class, BridgeError>)
        ensures
            r is Ok ==> r->Ok_0@ == "java/util/concurrent/atomic/AtomicReference"@,
            r is Err ==> lookup_failed(r->Err_0, "java/util/concurrent/atomic/AtomicReference"@),
    {
        Self::lookup(env, "java/util/concurrent/atomic/AtomicReference")
    }

    /// java.util.concurrent.atomic.AtomicIntegerArray
    pub fn AtomicIntegerArray<'local>(env: &mut JNIEnv<'local>) -> (r: Result<Class, BridgeError>)
        ensures
            r is Ok ==> r->Ok_0@ == "java/util/concurrent/atomic/AtomicIntegerArray"@,
            r is Err ==> lookup_failed(r->Err_0, "java/util/concurrent/atomic/AtomicIntegerArray"@),
    {
        Self::lookup(env, "java/util/concurrent/atomic/AtomicIntegerArray")
    }

    /// java.util.concurrent.atomic.AtomicIntegerFieldUpdater
    pub fn AtomicIntegerFieldUpdater<'local>(env: &mut JNIEnv<'local>) -> (r: Result<Class, BridgeError>)
        ensures
            r is Ok ==> r->Ok_0@ == "java/util/concurrent/atomic/AtomicIntegerFieldUpdater"@,
            r is Err ==> lookup_failed(r->Err_0, "java/util/concurrent/atomic/AtomicIntegerFieldUpdater"@),
    {
        Self::lookup(env, "java/util/concurrent/atomic/AtomicIntegerFieldUpdater")
    }

    /// java.util.Data
    pub fn Date<'local>(env: &mut JNIEnv<'local>) -> (r: Result<Class, BridgeError>)
        ensures
            r is Ok ==> r->Ok_0@ == "java/util/Date"@,
            r is Err ==> lookup_failed(r->Err_0, "java/util/Date"@),
    {
        Self::lookup(env, "java/util/Date")
    }

    /// java.net.URI
    pub fn URI<'local>(env: &mut JNIEnv<'local>) -> (r: Result<Class, BridgeError>)
        ensures
            r is Ok ==> r->Ok_0@ == "java/net/URI"@,
            r is Err ==> lookup_failed(r->Err_0, "java/net/URI"@),
    {
        Self::lookup(env, "java/net/URI")
    }

    /// java.util.concurrent.atomic.AtomicLongArray
    pub fn AtomicLongArray<'local>(env: &mut JNIEnv<'local>) -> (r: Result<Class, BridgeError>)
        ensures
            r is Ok ==> r->Ok_0@ == "java/util/concurrent/atomic/AtomicLongArray"@,
            r is Err ==> lookup_failed(r->Err_0, "java/util/concurrent/atomic/AtomicLongArray"@),
    {
        Self::lookup(env, "java/util/concurrent/atomic/AtomicLongArray")
    }

    /// java.util.concurrent.atomic.AtomicLongFieldUpdater
    pub fn AtomicLongFieldUpdater<'local>(env: &mut JNIEnv<'local>) -> (r: Result<Class, BridgeError>)
        ensures
            r is Ok ==> r->Ok_0@ == "java/util/concurrent/atomic/AtomicLongFieldUpdater"@,
            r is Err ==> lookup_failed(r->Err_0, "java/util/concurrent/atomic/AtomicLongFieldUpdater"@),
    {
        Self::lookup(env, "java/util/concurrent/atomic/AtomicLongFieldUpdater")
    }

    /// java.util.concurrent.atomic.AtomicMarkableReference
    pub fn AtomicMarkableReference<'local>(env: &mut JNIEnv<'local>) -> (r: Result<Class, BridgeError>)
        ensures
            r is Ok ==> r->Ok_0@ == "java/util/concurrent/atomic/AtomicMarkableReference"@,
            r is Err ==> lookup_failed(r->Err_0, "java/util/concurrent/atomic/AtomicMarkableReference"@),
    {
        Self::lookup(env, "java/util/concurrent/atomic/AtomicMarkableReference")
    }

    /// java.util.concurrent.atomic.AtomicReferenceArray
    pub fn AtomicReferenceArray<'local>(env: &mut JNIEnv<'local>) -> (r: Result<Class, BridgeError>)
        ensures
            r is Ok ==> r->Ok_0@ == "java/util/concurrent/atomic/AtomicReferenceArray"@,
            r is Err ==> lookup_failed(r->Err_0, "java/util/concurrent/atomic/AtomicReferenceArray"@),
    {
        Self::lookup(env, "java/util/concurrent/atomic/AtomicReferenceArray")
    }

    /// java.util.concurrent.atomic.AtomicReferenceFieldUpdater
    pub fn AtomicReferenceFieldUpdater<'local>(env: &mut JNIEnv<'local>) -> (r: Result<Class, BridgeError>)
        ensures
            r is Ok ==> r->Ok_0@ == "java/util/concurrent/atomic/AtomicReferenceFieldUpdater"@,
            r is Err ==> lookup_failed(r->Err_0, "java/util/concurrent/atomic/AtomicReferenceFieldUpdater"@),
    {
        Self::lookup(env, "java/util/concurrent/atomic/AtomicReferenceFieldUpdater")
    }

    /// java.util.concurrent.atomic.DoubleAccumulator
    pub fn DoubleAccumulator<'local>(env: &mut JNIEnv<'local>) -> (r: Result<Class, BridgeError>)
        ensures
            r is Ok ==> r->Ok_0@ == "java/util/concurrent/atomic/DoubleAccumulator"@,
            r is Err ==> lookup_failed(r->Err_0, "java/util/concurrent/atomic/DoubleAccumulator"@),
    {
        Self::lookup(env, "java/util/concurrent/atomic/DoubleAccumulator")
    }

    /// java.util.concurrent.atomic.DoubleAdder
    pub fn DoubleAdder<'local>(env: &mut JNIEnv<'local>) -> (r: Result<Class, BridgeError>)
        ensures
            r is Ok ==> r->Ok_0@ == "java/util/concurrent/atomic/DoubleAdder"@,
            r is Err ==> lookup_failed(r->Err_0, "java/util/concurrent/atomic/DoubleAdder"@),
    {
        Self::lookup(env, "java/util/concurrent/atomic/DoubleAdder")
    }

    /// java.util.concurrent.atomic.LongAccumulator
    pub fn LongAccumulator<'local>(env: &mut JNIEnv<'local>) -> (r: Result<Class, BridgeError>)
        ensures
            r is Ok ==> r->Ok_0@ == "java/util/concurrent/atomic/LongAccumulator"@,
            r is Err ==> lookup_failed(r->Err_0, "java/util/concurrent/atomic/LongAccumulator"@),
    {
        Self::lookup(env, "java/util/concurrent/atomic/LongAccumulator")
    }

    /// java.util.concurrent.atomic.LongAdder
    pub fn LongAdder<'local>(env: &mut JNIEnv<'local>) -> (r: Result<Class, BridgeError>)
        ensures
            r is Ok ==> r->Ok_0@ == "java/util/concurrent/atomic/LongAdder"@,
            r is Err ==> lookup_failed(r->Err_0, "java/util/concurrent/atomic/LongAdder"@),
    {
        Self::lookup(env, "java/util/concurrent/atomic/LongAdder")
    }

    /// java.util.concurrent.atomic.Striped64
    pub fn Striped64<'local>(env: &mut JNIEnv<'local>) -> (r: Result<Class, BridgeError>)
        ensures
            r is Ok ==> r->Ok_0@ == "java/util/concurrent/atomic/Striped64"@,
            r is Err ==> lookup_failed(r->Err_0, "java/util/concurrent/atomic/Striped64"@),
    {
        Self::lookup(env, "java/util/concurrent/atomic/Striped64")
    }

    /// java.util.concurrent.Future
    pub fn Future<'local>(env: &mut JNIEnv<'local>) -> (r: Result<Class, BridgeError>)
        ensures
            r is Ok ==> r->Ok_0@ == "java/util/concurrent/Future"@,
            r is Err ==> lookup_failed(r->Err_0, "java/util/concurrent/Future"@),
    {
        Self::lookup(env, "java/util/concurrent/Future")
    }

    /// java.util.concurrent.TimeUnit
    pub fn TimeUnit<'local>(env: &mut JNIEnv<'local>) -> (r: Result<Class, BridgeError>)
        ensures
            r is Ok ==> r->Ok_0@ == "java/util/concurrent/TimeUnit"@,
            r is Err ==> lookup_failed(r->Err_0, "java/util/concurrent/TimeUnit"@),
    {
        Self::lookup(env, "java/util/concurrent/TimeUnit")
    }

    /// java.util.regex.Pattern
    pub fn Pattern<'local>(env: &mut JNIEnv<'local>) -> (r: Result<Class, BridgeError>)
        ensures
            r is Ok ==> r->Ok_0@ == "java/util/regex/Pattern"@,
            r is Err ==> lookup_failed(r->Err_0, "java/util/regex/Pattern"@),
    {
        Self::lookup(env, "java/util/regex/Pattern")
    }

    /// java.util.regex.Matcher
    pub fn Matcher<'local>(env: &mut JNIEnv<'local>) -> (r: Result<Class, BridgeError>)
        ensures
            r is Ok ==> r->Ok_0@ == "java/util/regex/Matcher"@,
            r is Err ==> lookup_failed(r->Err_0, "java/util/regex/Matcher"@),
    {
        Self::lookup(env, "java/util/regex/Matcher")
    }

    /// java.time.Duration
    pub fn Duration<'local>(env: &mut JNIEnv<'local>) -> (r: Result<Class, BridgeError>)
        ensures
            r is Ok ==> r->Ok_0@ == "java/time/Duration"@,
            r is Err ==> lookup_failed(r->Err_0, "java/time/Duration"@),
    {
        Self::lookup(env, "java/time/Duration")
    }

    /// java.time.Instant
    pub fn Instant<'local>(env: &mut JNIEnv<'local>) -> (r: Result<Class, BridgeError>)
        ensures
            r is Ok ==> r->Ok_0@ == "java/time/Instant"@,
            r is Err ==> lookup_failed(r->Err_0, "java/time/Instant"@),
    {
        Self::lookup(env, "java/time/Instant")
    }

    /// java.io.File
    pub fn File<'local>(env: &mut JNIEnv<'local>) -> (r: Result<Class, BridgeError>)
        ensures
            r is Ok ==> r->Ok_0@ == "java/io/File"@,
            r is Err ==> lookup_failed(r->Err_0, "java/io/File"@),
    {
        Self::lookup(env, "java/io/File")
    }

    /// java.io.InputStream
    pub fn InputStream<'local>(env: &mut JNIEnv<'local>) -> (r: Result<Class, BridgeError>)
        ensures
            r is Ok ==> r->Ok_0@ == "java/io/InputStream"@,
            r is Err ==> lookup_failed(r->Err_0, "java/io/InputStream"@),
    {
        Self::lookup(env, "java/io/InputStream")
    }

    /// java.io.OutputStream
    pub fn OutputStream<'local>(env: &mut JNIEnv<'local>) -> (r: Result<Class, BridgeError>)
        ensures
            r is Ok ==> r->Ok_0@ == "java/io/OutputStream"@,
            r is Err ==> lookup_failed(r->Err_0, "java/io/OutputStream"@),
    {
        Self::lookup(env, "java/io/OutputStream")
    }

    /// sun.misc.Unsafe
    pub fn Unsafe<'local>(env: &mut JNIEnv<'local>) -> (r: Result<Class, BridgeError>)
        ensures
            r is Ok ==> r->Ok_0@ == "sun/misc/Unsafe"@,
            r is Err ==> lookup_failed(r->Err_0, "sun/misc/Unsafe"@),
    {
        Self::lookup(env, "sun/misc/Unsafe")
    }

    /// java.lang.Character
    pub fn Character<'local>(env: &mut JNIEnv<'local>) -> (r: Result<Class, BridgeError>)
        ensures
            r is Ok ==> r->Ok_0@ == "java/lang/Character"@,
            r is Err ==> lookup_failed(r->Err_0, "java/lang/Character"@),
    {
        Self::lookup(env, "java/lang/Character")
    }

    /// java.util.Queue
    pub fn Queue<'local>(env: &mut JNIEnv<'local>) -> (r: Result<Class, BridgeError>)
        ensures
            r is Ok ==> r->Ok_0@ == "java/util/Queue"@,
            r is Err ==> lookup_failed(r->Err_0, "java/util/Queue"@),
    {
        Self::lookup(env, "java/util/Queue")
    }

    /// The Java primitive `int`
    pub fn int_<'local>(env: &mut JNIEnv<'local>) -> (r: Result<Class, BridgeError>)
        ensures
            r is Ok ==> r->Ok_0@ == "int"@,
            r is Err ==> lookup_failed(r->Err_0, "int"@),
    {
        Self::primitive(env, "int")
    }

    /// The Java primitive `long`
    pub fn long<'local>(env: &mut JNIEnv<'local>) -> (r: Result<Class, BridgeError>)
        ensures
            r is Ok ==> r->Ok_0@ == "long"@,
            r is Err ==> lookup_failed(r->Err_0, "long"@),
    {
        Self::primitive(env, "long")
    }

    /// The Java primitive `byte`
    pub fn byte<'local>(env: &mut JNIEnv<'local>) -> (r: Result<Class, BridgeError>)
        ensures
            r is Ok ==> r->Ok_0@ == "byte"@,
            r is Err ==> lookup_failed(r->Err_0, "byte"@),
    {
        Self::primitive(env, "byte")
    }

    /// The Java primitive `boolean`
    pub fn boolean<'local>(env: &mut JNIEnv<'local>) -> (r: Result<Class, BridgeError>)
        ensures
            r is Ok ==> r->Ok_0@ == "boolean"@,
            r is Err ==> lookup_failed(r->Err_0, "boolean"@),
    {
        Self::primitive(env, "boolean")
    }

    /// The Java primitive `float`
    pub fn float<'local>(env: &mut JNIEnv<'local>) -> (r: Result<Class, BridgeError>)
        ensures
            r is Ok ==> r->Ok_0@ == "float"@,
            r is Err ==> lookup_failed(r->Err_0, "float"@),
    {
        Self::primitive(env, "float")
    }

    /// The Java primitive `double`
    pub fn double<'local>(env: &mut JNIEnv<'local>) -> (r: Result<Class, BridgeError>)
        ensures
            r is Ok ==> r->Ok_0@ == "double"@,
            r is Err ==> lookup_failed(r->Err_0, "double"@),
    {
        Self::primitive(env, "double")
    }

    /// The Java primitive `short`
    pub fn short<'local>(env: &mut JNIEnv<'local>) -> (r: Result<Class, BridgeError>)
        ensures
            r is Ok ==> r->Ok_0@ == "short"@,
            r is Err ==> lookup_failed(r->Err_0, "short"@),
    {
        Self::primitive(env, "short")
    }

    /// The Java primitive `char`
    pub fn char<'local>(env: &mut JNIEnv<'local>) -> (r: Result<Class, BridgeError>)
        ensures
            r is Ok ==> r->Ok_0@ == "char"@,
            r is Err ==> lookup_failed(r->Err_0, "char"@),
    {
        Self::primitive(env, "char")
    }
}

} // verus!
