//! `java.lang.System`: the process-wide utilities of the runtime. Every call asks the
//! runtime again; nothing is cached.
use crate::class::Class;
use crate::error::{foreign, BridgeError};
use crate::map::JavaMap;
use crate::object::Object;
use crate::methods::{invoke_static, JavaMethod};
use crate::runtime::{auto_local, get_string, guarded};
use crate::string::{string_or_none, JavaString};
use jni::objects::JValue;
use jni::JNIEnv;
use vstd::prelude::*;

verus! {

/// Wrapper around `java.lang.System`
#[derive(Debug)]
pub struct System;

impl System {
    /// Create a new System abstraction
    pub fn new() -> System {
        System
    }

    /// Removes the system property indicated by the specified key and returns its former
    /// value; `None` when it had none.
    pub fn clear_property<'local>(&self, env: &mut JNIEnv<'local>, key: &str) -> (r: Result<
        Option<String>,
        BridgeError,
    >)
        ensures
            r is Err ==> r->Err_0 is ForeignCall || r->Err_0 is ClassNotFound,
    {
        let key_jstring = JavaString::from_rust(env, key)?;
        let class = Class::System(env)?;
        let args = [key_jstring.as_value()];
        let prop = invoke_static(env, class.global(), JavaMethod::SystemClearProperty, &args)?;
        string_or_none(env, prop)
    }

    /// Returns the current time in milliseconds.
    pub fn current_time_millis<'local>(&self, env: &mut JNIEnv<'local>) -> (r: Result<i64, BridgeError>)
        ensures
            r is Err ==> r->Err_0 is ForeignCall || r->Err_0 is ClassNotFound,
    {
        let class = Class::System(env)?;
        let value = invoke_static(env, class.global(), JavaMethod::SystemCurrentTimeMillis, &[])?;
        foreign(value.j())
    }

    /// Terminates the currently running Java Virtual Machine.
    pub fn exit<'local>(&self, env: &mut JNIEnv<'local>, status: i32) -> (r: Result<(), BridgeError>)
        ensures
            r is Err ==> r->Err_0 is ForeignCall || r->Err_0 is ClassNotFound,
    {
        let class = Class::System(env)?;
        let args = [JValue::Int(status)];
        invoke_static(env, class.global(), JavaMethod::SystemExit, &args)?;
        Ok(())
    }

    /// Runs the garbage collector.
    pub fn gc<'local>(&self, env: &mut JNIEnv<'local>) -> (r: Result<(), BridgeError>)
        ensures
            r is Err ==> r->Err_0 is ForeignCall || r->Err_0 is ClassNotFound,
    {
        let class = Class::System(env)?;
        invoke_static(env, class.global(), JavaMethod::SystemGc, &[])?;
        Ok(())
    }

    /// Returns an unmodifiable string map view of the current system environment.
    pub fn get_env<'local>(&self, env: &mut JNIEnv<'local>) -> (r: Result<JavaMap<'local>, BridgeError>)
        ensures
            r is Ok ==> r->Ok_0.inner.class@ == "java/util/Map"@,
            r is Ok ==> r->Ok_0.k_class@ == "java/lang/String"@ && r->Ok_0.v_class@ == "java/lang/String"@,
            r is Err ==> r->Err_0 is ForeignCall || r->Err_0 is ClassNotFound,
    {
        let class = Class::System(env)?;
        let value = invoke_static(env, class.global(), JavaMethod::SystemGetenvAll, &[])?;
        let value = foreign(value.l())?;
        let map_class = Class::Map_(env)?;
        let object = Object::new(env, value, map_class);
        let string_class = Class::String(env)?;
        Ok(JavaMap::new(object, string_class.clone(), string_class))
    }

    /// Gets the value of the specified environment variable; `None` when it is not set.
    pub fn get_env_with_name<'local>(&self, env: &mut JNIEnv<'local>, name: &str) -> (r: Result<
        Option<String>,
        BridgeError,
    >)
        ensures
            r is Err ==> r->Err_0 is ForeignCall || r->Err_0 is ClassNotFound,
    {
        let jstring = JavaString::from_rust(env, name)?;
        let class = Class::System(env)?;
        let args = [jstring.as_value()];
        let value = invoke_static(env, class.global(), JavaMethod::SystemGetenv, &args)?;
        string_or_none(env, value)
    }

    /// Gets the system property indicated by the specified key; `None` when it is not set.
    pub fn get_property<'local>(&self, env: &mut JNIEnv<'local>, key: &str) -> (r: Result<
        Option<String>,
        BridgeError,
    >)
        ensures
            r is Err ==> r->Err_0 is ForeignCall || r->Err_0 is ClassNotFound,
    {
        let jstring = JavaString::from_rust(env, key)?;
        let class = Class::System(env)?;
        let args = [jstring.as_value()];
        let value = invoke_static(env, class.global(), JavaMethod::SystemGetProperty, &args)?;
        string_or_none(env, value)
    }

    /// Returns the system-dependent line separator string.
    pub fn line_separator<'local>(&self, env: &mut JNIEnv<'local>) -> (r: Result<String, BridgeError>)
        ensures
            r is Err ==> r->Err_0 is ForeignCall || r->Err_0 is ClassNotFound,
    {
        let class = Class::System(env)?;
        let value = invoke_static(env, class.global(), JavaMethod::SystemLineSeparator, &[])?;
        let separator = auto_local(env, foreign(value.l())?);
        foreign(get_string(env, guarded(&separator)))
    }

    /// Loads a code file with the specified filename from the local file system as a
    /// dynamic library.
    pub fn load<'local>(&self, env: &mut JNIEnv<'local>, filename: &str) -> (r: Result<(), BridgeError>)
        ensures
            r is Err ==> r->Err_0 is ForeignCall || r->Err_0 is ClassNotFound,
    {
        let jstring = JavaString::from_rust(env, filename)?;
        let class = Class::System(env)?;
        let args = [jstring.as_value()];
        invoke_static(env, class.global(), JavaMethod::SystemLoad, &args)?;
        Ok(())
    }

    /// Loads the system library specified by the libname argument.
    pub fn load_library<'local>(&self, env: &mut JNIEnv<'local>, libname: &str) -> (r: Result<
        (),
        BridgeError,
    >)
        ensures
            r is Err ==> r->Err_0 is ForeignCall || r->Err_0 is ClassNotFound,
    {
        let jstring = JavaString::from_rust(env, libname)?;
        let class = Class::System(env)?;
        let args = [jstring.as_value()];
        invoke_static(env, class.global(), JavaMethod::SystemLoadLibrary, &args)?;
        Ok(())
    }

    /// Returns the current value of the running Java Virtual Machine's high-resolution
    /// time source, in nanoseconds.
    pub fn nano_time<'local>(&self, env: &mut JNIEnv<'local>) -> (r: Result<i64, BridgeError>)
        ensures
            r is Err ==> r->Err_0 is ForeignCall || r->Err_0 is ClassNotFound,
    {
        let class = Class::System(env)?;
        let value = invoke_static(env, class.global(), JavaMethod::SystemNanoTime, &[])?;
        foreign(value.j())
    }

    /// Runs the finalization methods of any objects pending finalization.
    pub fn run_finalization<'local>(&self, env: &mut JNIEnv<'local>) -> (r: Result<(), BridgeError>)
        ensures
            r is Err ==> r->Err_0 is ForeignCall || r->Err_0 is ClassNotFound,
    {
        let class = Class::System(env)?;
        invoke_static(env, class.global(), JavaMethod::SystemRunFinalization, &[])?;
        Ok(())
    }

    /// Sets the system property indicated by the specified key and returns its former
    /// value; `None` when it had none.
    pub fn set_property<'local>(&self, env: &mut JNIEnv<'local>, key: &str, value: &str) -> (r: Result<
        Option<String>,
        BridgeError,
    >)
        ensures
            r is Err ==> r->Err_0 is ForeignCall || r->Err_0 is ClassNotFound,
    {
        let key = JavaString::from_rust(env, key)?;
        let value = JavaString::from_rust(env, value)?;
        let class = Class::System(env)?;
        let args = [key.as_value(), value.as_value()];
        let previous = invoke_static(env, class.global(), JavaMethod::SystemSetProperty, &args)?;
        string_or_none(env, previous)
    }
}

} // verus!
