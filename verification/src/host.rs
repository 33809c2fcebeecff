//! Thin trusted shims over the `jni` crate.
//!
//! Every call into the host runtime goes through exactly one of the
//! functions below.  Their bodies only make the call and convert
//! arguments and results; nothing is promised of the opaque handles
//! that come back, since what the host returns depends on the state of
//! the Java runtime and of the keystore daemon behind it.  Class and
//! method descriptors are handed in by the verified callers, so the
//! bound host API surface stays visible in verified code.

use vstd::prelude::*;

use jni::AttachGuard;
use jni::objects::{JByteArray, JObject, JObjectArray, JString, JValue};

verus! {

#[verifier::external_type_specification]
#[verifier::external_body]
pub struct ExAttachGuard<'local>(AttachGuard<'local>);

#[verifier::external_type_specification]
#[verifier::external_body]
pub struct ExJObjectRaw(jni::sys::_jobject);

#[verifier::external_type_specification]
#[verifier::external_body]
pub struct ExJObject<'local>(JObject<'local>);

#[verifier::external_type_specification]
#[verifier::external_body]
pub struct ExJObjectArray<'local>(JObjectArray<'local>);

#[verifier::external_type_specification]
#[verifier::external_body]
pub struct ExJniError(jni::errors::Error);

/// Relies on `jni::JNIEnv::call_method` and `JValueOwned::l`: invokes a
/// no-argument instance method and unwraps the object reference it
/// returns.
#[verifier::external_body]
pub(crate) fn call_obj_method<'a>(
    env: &mut AttachGuard<'a>,
    obj: &JObject<'_>,
    name: &str,
    sig: &str,
) -> Result<JObject<'a>, jni::errors::Error> {
    env.call_method(obj, name, sig, &[])?.l()
}

/// Relies on `jni::JNIEnv::call_method` and `JValueOwned::z`: invokes a
/// no-argument instance method and unwraps the boolean it returns.
#[verifier::external_body]
pub(crate) fn call_bool_method(
    env: &mut AttachGuard<'_>,
    obj: &JObject<'_>,
    name: &str,
    sig: &str,
) -> Result<bool, jni::errors::Error> {
    env.call_method(obj, name, sig, &[])?.z()
}

/// Relies on `jni::JNIEnv::call_method` and `JObject::null`: invokes a
/// void instance method whose single argument is the null reference.
#[verifier::external_body]
pub(crate) fn call_void_method_null_arg(
    env: &mut AttachGuard<'_>,
    obj: &JObject<'_>,
    name: &str,
    sig: &str,
) -> Result<(), jni::errors::Error> {
    env.call_method(obj, name, sig, &[JValue::Object(&JObject::null())])?;
    Ok(())
}

/// Relies on `jni::JNIEnv::call_method`: invokes a void instance method
/// with one object argument.
#[verifier::external_body]
pub(crate) fn call_void_method_obj_arg(
    env: &mut AttachGuard<'_>,
    obj: &JObject<'_>,
    name: &str,
    sig: &str,
    arg: &JObject<'_>,
) -> Result<(), jni::errors::Error> {
    env.call_method(obj, name, sig, &[JValue::Object(arg)])?;
    Ok(())
}

/// Relies on `jni::JNIEnv::call_method`: invokes an instance method
/// taking one object argument and unwraps the object it returns.
#[verifier::external_body]
pub(crate) fn call_obj_method_obj_arg<'a>(
    env: &mut AttachGuard<'a>,
    obj: &JObject<'_>,
    name: &str,
    sig: &str,
    arg: &JObject<'_>,
) -> Result<JObject<'a>, jni::errors::Error> {
    env.call_method(obj, name, sig, &[JValue::Object(arg)])?.l()
}

/// Relies on `jni::JNIEnv::call_method` and `JNIEnv::new_string`:
/// invokes an instance method taking one string argument and the null
/// reference, and unwraps the object it returns.
#[verifier::external_body]
pub(crate) fn call_obj_method_str_null_args<'a>(
    env: &mut AttachGuard<'a>,
    obj: &JObject<'_>,
    name: &str,
    sig: &str,
    arg: &str,
) -> Result<JObject<'a>, jni::errors::Error> {
    let s: JString = env.new_string(arg)?;
    env.call_method(obj, name, sig, &[JValue::Object(&s), JValue::Object(&JObject::null())])?.l()
}

/// Relies on `jni::JNIEnv::call_method`: invokes an instance method
/// taking one object-array argument and unwraps the object it returns.
#[verifier::external_body]
pub(crate) fn call_obj_method_array_arg<'a>(
    env: &mut AttachGuard<'a>,
    obj: &JObject<'_>,
    name: &str,
    sig: &str,
    arg: &JObjectArray<'_>,
) -> Result<JObject<'a>, jni::errors::Error> {
    env.call_method(obj, name, sig, &[JValue::Object(arg)])?.l()
}

/// Relies on `jni::JNIEnv::call_method`: invokes an instance method
/// taking two int arguments and unwraps the object it returns.
#[verifier::external_body]
pub(crate) fn call_obj_method_int_int_args<'a>(
    env: &mut AttachGuard<'a>,
    obj: &JObject<'_>,
    name: &str,
    sig: &str,
    a: i32,
    b: i32,
) -> Result<JObject<'a>, jni::errors::Error> {
    env.call_method(obj, name, sig, &[JValue::Int(a), JValue::Int(b)])?.l()
}

/// Relies on `jni::JNIEnv::call_method`: invokes an instance method
/// taking one boolean argument and unwraps the object it returns.
#[verifier::external_body]
pub(crate) fn call_obj_method_bool_arg<'a>(
    env: &mut AttachGuard<'a>,
    obj: &JObject<'_>,
    name: &str,
    sig: &str,
    flag: bool,
) -> Result<JObject<'a>, jni::errors::Error> {
    env.call_method(obj, name, sig, &[JValue::Bool(flag as u8)])?.l()
}

/// Relies on `jni::JNIEnv::call_method` and `JNIEnv::convert_byte_array`:
/// invokes a no-argument instance method returning a byte array and
/// copies that array out as native bytes.
#[verifier::external_body]
pub(crate) fn call_byte_array_method(
    env: &mut AttachGuard<'_>,
    obj: &JObject<'_>,
    name: &str,
    sig: &str,
) -> Result<Vec<u8>, jni::errors::Error> {
    let arr = JByteArray::from(env.call_method(obj, name, sig, &[])?.l()?);
    env.convert_byte_array(arr)
}

/// Relies on `jni::JNIEnv::call_static_method` and `JNIEnv::new_string`:
/// invokes a static method of the named class with one string argument
/// and unwraps the object it returns.
#[verifier::external_body]
pub(crate) fn call_static_obj_method_str_arg<'a>(
    env: &mut AttachGuard<'a>,
    class: &str,
    name: &str,
    sig: &str,
    arg: &str,
) -> Result<JObject<'a>, jni::errors::Error> {
    let s: JString = env.new_string(arg)?;
    env.call_static_method(class, name, sig, &[JValue::Object(&s)])?.l()
}

/// Relies on `jni::JNIEnv::call_static_method` and `JNIEnv::new_string`:
/// invokes a static method of the named class with two string arguments
/// and unwraps the object it returns.
#[verifier::external_body]
pub(crate) fn call_static_obj_method_str_str_args<'a>(
    env: &mut AttachGuard<'a>,
    class: &str,
    name: &str,
    sig: &str,
    arg1: &str,
    arg2: &str,
) -> Result<JObject<'a>, jni::errors::Error> {
    let s1: JString = env.new_string(arg1)?;
    let s2: JString = env.new_string(arg2)?;
    env.call_static_method(class, name, sig, &[JValue::Object(&s1), JValue::Object(&s2)])?.l()
}

/// Relies on `jni::JNIEnv::new_object` and `JNIEnv::new_string`:
/// constructs an instance of the named class from one string argument
/// and one int argument.
#[verifier::external_body]
pub(crate) fn new_object_str_int_args<'a>(
    env: &mut AttachGuard<'a>,
    class: &str,
    ctor_sig: &str,
    arg1: &str,
    arg2: i32,
) -> Result<JObject<'a>, jni::errors::Error> {
    let s: JString = env.new_string(arg1)?;
    env.new_object(class, ctor_sig, &[JValue::Object(&s), JValue::Int(arg2)])
}

/// Relies on `jni::JNIEnv::new_byte_array`, `JNIEnv::set_byte_array_region`
/// and `JNIEnv::new_object`: copies the given bytes into a fresh host
/// byte array and constructs an instance of the named class from it.
#[verifier::external_body]
pub(crate) fn new_object_byte_array_arg<'a>(
    env: &mut AttachGuard<'a>,
    class: &str,
    ctor_sig: &str,
    bytes: &[u8],
) -> Result<JObject<'a>, jni::errors::Error>
    requires
        bytes@.len() <= 0x7fff_ffff,
{
    let arr = env.new_byte_array(bytes.len() as i32)?;
    let signed: Vec<i8> = bytes.iter().map(|b| *b as i8).collect();
    env.set_byte_array_region(&arr, 0, signed.as_slice())?;
    env.new_object(class, ctor_sig, &[JValue::Object(&arr)])
}

/// Relies on `jni::JNIEnv::new_object_array` and `JObject::null`:
/// allocates a host array of `java/lang/String` references of the given
/// length, each element initially null.
#[verifier::external_body]
pub(crate) fn new_string_array<'a>(
    env: &mut AttachGuard<'a>,
    len: usize,
) -> Result<JObjectArray<'a>, jni::errors::Error>
    requires
        len <= 0x7fff_ffff,
{
    env.new_object_array(len as i32, "java/lang/String", JObject::null())
}

/// Relies on `jni::JNIEnv::new_string` and
/// `JNIEnv::set_object_array_element`: stores a host string built from
/// the given native string at the given index of the array.
#[verifier::external_body]
pub(crate) fn set_string_array_element(
    env: &mut AttachGuard<'_>,
    arr: &JObjectArray<'_>,
    index: usize,
    value: &str,
) -> Result<(), jni::errors::Error>
    requires
        index <= 0x7fff_ffff,
{
    let s: JString = env.new_string(value)?;
    env.set_object_array_element(arr, index as i32, s)
}

/// Relies on `jni::JNIEnv::get_string`: reads the characters of a host
/// string object out into a native string.
#[verifier::external_body]
pub(crate) fn get_string_value(
    env: &mut AttachGuard<'_>,
    obj: JObject<'_>,
) -> Result<String, jni::errors::Error> {
    let s = JString::from(obj);
    let value: String = env.get_string(&s)?.into();
    Ok(value)
}

/// Relies on `jni::objects::JObject::as_raw` and `JObject::null`: a
/// null host reference is exactly one whose raw handle is the null
/// pointer, so this reports whether the handle refers to no object.
#[verifier::external_body]
pub(crate) fn is_null_ref(obj: &JObject<'_>) -> bool {
    obj.as_raw().is_null()
}

/// Relies on `jni::JNIEnv::is_instance_of`: reports whether the object
/// is an instance of the named class.  The host answers true for every
/// class when the object is the null reference, so callers must rule
/// null out first.
#[verifier::external_body]
pub(crate) fn is_instance_of(
    env: &mut AttachGuard<'_>,
    obj: &JObject<'_>,
    class: &str,
) -> Result<bool, jni::errors::Error> {
    env.is_instance_of(obj, class)
}

/// Relies on `jni::JNIEnv::exception_check`: reports whether the host
/// runtime has an exception pending on this thread.
#[verifier::external_body]
pub(crate) fn exception_check(env: &mut AttachGuard<'_>) -> Result<bool, jni::errors::Error> {
    env.exception_check()
}

/// Relies on `jni::JNIEnv::exception_describe`: prints the pending host
/// exception for diagnostics.
#[verifier::external_body]
pub(crate) fn exception_describe(env: &mut AttachGuard<'_>) -> Result<(), jni::errors::Error> {
    env.exception_describe()
}

} // verus!
