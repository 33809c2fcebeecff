//! A native binding layer over the Android platform keystore.
//!
//! The library proxies the host's keystore, key-pair generator,
//! parameter-spec builder and key-material classes.  Host objects are
//! opaque handles owned by the Java runtime; the configuration and
//! state logic around them — purpose and authentication bitmasks,
//! builder accumulation, load and initialize ordering, the base64
//! transport form of a public key, and the typed error taxonomy — is
//! kept as plain verified values.  Every call into the host goes
//! through the shims of the `host` module.

use vstd::prelude::*;

pub mod host;
pub mod keygen_parameter_spec;
pub mod keypair;
pub mod keypair_generator;
pub mod utils;

pub use keypair::PrivateKey;

use jni::AttachGuard;
use jni::objects::JObject;

verus! {

/// How an operation against the host runtime can fail.
#[derive(Debug)]
pub enum HostError {
    /// Environment misconfiguration: a class, provider or algorithm
    /// the binding depends on could not be looked up.  Unrecoverable;
    /// not worth retrying.
    Setup(jni::errors::Error),
    /// The host method threw, or the call could not be made.
    Host(jni::errors::Error),
    /// The keystore returned an entry that is not a private-key entry.
    UnsupportedEntryType,
    /// The alias names no entry in the store: the host's lookup
    /// returned the null reference without throwing.
    EntryNotFound,
    /// The given string is not a standard padded base64 encoding.
    Base64(base64::DecodeError),
}

/// The capability protocol every host-object proxy implements: its
/// class descriptor, its underlying handle, and two display
/// conversions.
pub trait Object<'a>: Sized {
    /// The fully qualified class descriptor used for host lookups.
    fn class() -> &'static str;

    /// The underlying host object reference.
    fn l(&self) -> &JObject<'a>;

    /// Invoke the object's display-string conversion and return the
    /// handle of the resulting host string; a failed host call is
    /// propagated as a typed `Host` error.
    fn to_jstring(&self, env: &mut AttachGuard<'a>) -> (r: Result<JObject<'a>, HostError>)
        ensures
            (r matches Err(e) ==> e matches HostError::Host(_)),
    {
        match host::call_obj_method(env, self.l(), "toString", "()Ljava/lang/String;") {
            Ok(o) => Ok(o),
            Err(e) => Err(HostError::Host(e)),
        }
    }

    /// Convert the object's display string into a native-owned string;
    /// a failed host call is propagated as a typed `Host` error.
    fn to_jni_string(&self, env: &mut AttachGuard<'a>) -> (r: Result<String, HostError>)
        ensures
            (r matches Err(e) ==> e matches HostError::Host(_)),
    {
        let js = match self.to_jstring(env) {
            Ok(o) => o,
            Err(e) => {
                return Err(e);
            },
        };
        match host::get_string_value(env, js) {
            Ok(s) => Ok(s),
            Err(e) => Err(HostError::Host(e)),
        }
    }
}

/// A handle to the host's keystore singleton.  It is obtained with
/// `get_instance` and must be loaded before aliases or entries can be
/// read; the preconditions of `aliases` and `get_entry` record that
/// ordering.
pub struct AndroidKeyStore<'a> {
    inner: JObject<'a>,
    loaded: bool,
}

impl<'a> AndroidKeyStore<'a> {
    /// Whether `load` has completed successfully on this handle.
    pub closed spec fn loaded(self) -> bool {
        self.loaded
    }

    /// Whether `load` has completed successfully on this handle,
    /// observable at run time.
    pub fn is_loaded(&self) -> (b: bool)
        ensures
            b == self.loaded(),
    {
        self.loaded
    }

    /// Obtain the named provider's keystore singleton; the handle
    /// starts unloaded.  A failure here means the provider is
    /// unavailable: an environment misconfiguration.
    pub fn get_instance(env: &mut AttachGuard<'a>) -> (r: Result<Self, HostError>)
        ensures
            (r matches Ok(s) ==> !s.loaded()),
            (r matches Err(e) ==> e matches HostError::Setup(_)),
    {
        match host::call_static_obj_method_str_arg(
            env,
            "java/security/KeyStore",
            "getInstance",
            "(Ljava/lang/String;)Ljava/security/KeyStore;",
            "AndroidKeyStore",
        ) {
            Ok(obj) => Ok(AndroidKeyStore { inner: obj, loaded: false }),
            Err(e) => Err(HostError::Setup(e)),
        }
    }

    /// Load the store with no explicit protection parameter (the host
    /// default).  Loading twice is safe per host semantics; only a
    /// successful return marks the handle loaded.
    pub fn load(&mut self, env: &mut AttachGuard<'a>) -> (r: Result<(), HostError>)
        ensures
            (r is Ok ==> final(self).loaded()),
            (r is Err ==> final(self).loaded() == old(self).loaded()),
            (r matches Err(e) ==> e matches HostError::Host(_)),
    {
        match host::call_void_method_null_arg(
            env,
            &self.inner,
            "load",
            "(Ljava/security/KeyStore$LoadStoreParameter;)V",
        ) {
            Ok(()) => {
                self.loaded = true;
                Ok(())
            },
            Err(e) => Err(HostError::Host(e)),
        }
    }

    /// Drain the host's alias enumeration into a sequence of strings,
    /// in the host-defined enumeration order.  Valid only after a
    /// successful `load`.  What the store holds is host state, so the
    /// contents cannot be pinned down here; a failed host call is
    /// propagated as a typed `Host` error.
    pub fn aliases(&self, env: &mut AttachGuard<'a>) -> (r: Result<Vec<String>, HostError>)
        requires
            self.loaded(),
        ensures
            (r matches Err(e) ==> e matches HostError::Host(_)),
    {
        let enumeration = match host::call_obj_method(
            env,
            &self.inner,
            "aliases",
            "()Ljava/util/Enumeration;",
        ) {
            Ok(o) => o,
            Err(e) => {
                return Err(HostError::Host(e));
            },
        };
        let mut res: Vec<String> = Vec::new();
        // The number of stored aliases cannot exceed the address
        // space, so counting drained elements bounds the loop without
        // ever cutting a real enumeration short.
        let mut remaining: usize = usize::MAX;
        while remaining > 0
            decreases remaining,
        {
            let more = match host::call_bool_method(env, &enumeration, "hasMoreElements", "()Z") {
                Ok(b) => b,
                Err(e) => {
                    return Err(HostError::Host(e));
                },
            };
            if !more {
                return Ok(res);
            }
            let obj = match host::call_obj_method(
                env,
                &enumeration,
                "nextElement",
                "()Ljava/lang/Object;",
            ) {
                Ok(o) => o,
                Err(e) => {
                    return Err(HostError::Host(e));
                },
            };
            let s = match host::get_string_value(env, obj) {
                Ok(s) => s,
                Err(e) => {
                    return Err(HostError::Host(e));
                },
            };
            res.push(s);
            remaining = remaining - 1;
        }
        Ok(res)
    }

    /// Look up a keystore entry by alias with no protection parameter.
    /// Valid only after a successful `load`.  The host's three answers
    /// — whether the call failed, whether the returned reference is
    /// null, and whether it is a private-key entry — are classified by
    /// `entry_disposition`: a failed call (the alias rejected, or the
    /// store throwing) has its pending exception described for
    /// diagnostics and becomes a typed `Host` error; a null reference
    /// means the alias names no entry and becomes `EntryNotFound`; an
    /// entry of any other kind becomes `UnsupportedEntryType`.  No
    /// handle is ever returned for a failed or empty lookup.
    pub fn get_entry(&self, alias: &str, env: &mut AttachGuard<'a>) -> (r: Result<
        PrivateKeyEntry<'a>,
        HostError,
    >)
        requires
            self.loaded(),
        ensures
            (r matches Err(e) ==> (e matches HostError::Host(_) || e matches HostError::EntryNotFound
                || e matches HostError::UnsupportedEntryType)),
    {
        let entry_res = host::call_obj_method_str_null_args(
            env,
            &self.inner,
            "getEntry",
            "(Ljava/lang/String;Ljava/security/KeyStore$ProtectionParameter;)Ljava/security/KeyStore$Entry;",
            alias,
        );
        let pending = match host::exception_check(env) {
            Ok(b) => b,
            Err(e) => {
                return Err(HostError::Host(e));
            },
        };
        if pending {
            match host::exception_describe(env) {
                Ok(()) => {
                },
                Err(e) => {
                    return Err(HostError::Host(e));
                },
            }
        }
        let mut call_error: Option<jni::errors::Error> = Option::None;
        let mut entry: Option<JObject<'a>> = Option::None;
        match entry_res {
            Ok(o) => {
                entry = Option::Some(o);
            },
            Err(e) => {
                call_error = Option::Some(e);
            },
        }
        let call_failed = call_error.is_some();
        let is_null = match &entry {
            Option::Some(o) => host::is_null_ref(o),
            Option::None => false,
        };
        let is_private_key_entry = if call_failed || is_null {
            false
        } else {
            let o = entry.as_ref().unwrap();
            match host::is_instance_of(env, o, "java/security/KeyStore$PrivateKeyEntry") {
                Ok(b) => b,
                Err(e) => {
                    return Err(HostError::Host(e));
                },
            }
        };
        match entry_disposition(call_failed, is_null, is_private_key_entry) {
            EntryDisposition::PrivateKey => Ok(PrivateKeyEntry { inner: entry.unwrap() }),
            EntryDisposition::HostFailure => Err(HostError::Host(call_error.unwrap())),
            EntryDisposition::Absent => Err(HostError::EntryNotFound),
            EntryDisposition::Unsupported => Err(HostError::UnsupportedEntryType),
        }
    }
}

/// How an entry lookup turned out, decided from the host's answers.
#[derive(Clone, Copy, Debug, PartialEq, Eq, Structural)]
pub enum EntryDisposition {
    /// The returned reference is a usable private-key entry.
    PrivateKey,
    /// The lookup call itself failed: the host threw or the call could
    /// not be made.
    HostFailure,
    /// The host returned the null reference: the alias names no entry.
    Absent,
    /// The entry exists but is not a private-key entry.
    Unsupported,
}

/// The lookup outcome owed for each combination of the host's three
/// answers: a failed call is a host failure whatever else holds; a
/// null reference from a successful call means the alias is absent;
/// a non-null reference is usable exactly when it is a private-key
/// entry.
pub open spec fn spec_entry_disposition(
    call_failed: bool,
    is_null: bool,
    is_private_key_entry: bool,
) -> EntryDisposition {
    if call_failed {
        EntryDisposition::HostFailure
    } else if is_null {
        EntryDisposition::Absent
    } else if is_private_key_entry {
        EntryDisposition::PrivateKey
    } else {
        EntryDisposition::Unsupported
    }
}

/// Classify an entry lookup from the host's three answers.
pub fn entry_disposition(call_failed: bool, is_null: bool, is_private_key_entry: bool) -> (r:
    EntryDisposition)
    ensures
        r == spec_entry_disposition(call_failed, is_null, is_private_key_entry),
{
    if call_failed {
        EntryDisposition::HostFailure
    } else if is_null {
        EntryDisposition::Absent
    } else if is_private_key_entry {
        EntryDisposition::PrivateKey
    } else {
        EntryDisposition::Unsupported
    }
}

impl<'a> Object<'a> for AndroidKeyStore<'a> {
    fn class() -> &'static str {
        "android/security/keystore/AndroidKeyStore"
    }

    fn l(&self) -> &JObject<'a> {
        &self.inner
    }
}

/// A handle to a private-key keystore entry, from which the private
/// key is extracted.
pub struct PrivateKeyEntry<'a> {
    inner: JObject<'a>,
}

impl<'a> PrivateKeyEntry<'a> {
    /// Extract the entry's private-key handle.  For hardware-backed
    /// keys the handle supports only host-mediated operations, never
    /// export.  A failed host call is propagated as a typed `Host`
    /// error.
    pub fn get_private_key(self, env: &mut AttachGuard<'a>) -> (r: Result<
        PrivateKey<'a>,
        HostError,
    >)
        ensures
            (r matches Err(e) ==> e matches HostError::Host(_)),
    {
        match host::call_obj_method(
            env,
            &self.inner,
            "getPrivateKey",
            "()Ljava/security/PrivateKey;",
        ) {
            Ok(obj) => Ok(PrivateKey::new(obj)),
            Err(e) => Err(HostError::Host(e)),
        }
    }
}

impl<'a> Object<'a> for PrivateKeyEntry<'a> {
    fn class() -> &'static str {
        "java/security/KeyStore$PrivateKeyEntry"
    }

    fn l(&self) -> &JObject<'a> {
        &self.inner
    }
}

} // verus!
