//! Marshalling helpers between native values and host-runtime objects.

use vstd::prelude::*;

use jni::AttachGuard;
use jni::objects::{JObject, JObjectArray};

use crate::HostError;
use crate::host;

verus! {

/// Allocate a host string array of the given length and populate each
/// element from the corresponding native string, preserving input
/// order.  A failed host call is propagated as a typed `Host` error.
pub fn make_string_array<'a>(
    strings: &[String],
    env: &mut AttachGuard<'a>,
) -> (r: Result<JObjectArray<'a>, HostError>)
    requires
        strings@.len() <= 0x7fff_ffff,
    ensures
        (r matches Err(e) ==> e matches HostError::Host(_)),
{
    let arr = match host::new_string_array(env, strings.len()) {
        Ok(a) => a,
        Err(e) => {
            return Err(HostError::Host(e));
        },
    };
    let mut i: usize = 0;
    while i < strings.len()
        invariant
            i <= strings@.len(),
            strings@.len() <= 0x7fff_ffff,
        decreases strings@.len() - i,
    {
        match host::set_string_array_element(env, &arr, i, strings[i].as_str()) {
            Ok(()) => {
            },
            Err(e) => {
                return Err(HostError::Host(e));
            },
        }
        i = i + 1;
    }
    Ok(arr)
}

/// Look up the application's internal-storage directory through the
/// context object and return its absolute path as a native string.
/// The path is host state; a failed host call is propagated as a
/// typed `Host` error.
pub fn get_internal_directory_path<'a>(
    env: &mut AttachGuard<'a>,
    activity: &JObject<'a>,
) -> (r: Result<String, HostError>)
    ensures
        (r matches Err(e) ==> e matches HostError::Host(_)),
{
    let files_dir = match host::call_obj_method(env, activity, "getFilesDir", "()Ljava/io/File;") {
        Ok(o) => o,
        Err(e) => {
            return Err(HostError::Host(e));
        },
    };
    let path_obj = match host::call_obj_method(
        env,
        &files_dir,
        "getAbsolutePath",
        "()Ljava/lang/String;",
    ) {
        Ok(o) => o,
        Err(e) => {
            return Err(HostError::Host(e));
        },
    };
    match host::get_string_value(env, path_obj) {
        Ok(s) => Ok(s),
        Err(e) => Err(HostError::Host(e)),
    }
}

} // verus!
