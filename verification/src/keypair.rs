//! Proxies over generated key material, and the transportable base64
//! form of a public key.

use vstd::prelude::*;

use jni::AttachGuard;
use jni::objects::JObject;

use base64::Engine;

use crate::HostError;
use crate::Object;
use crate::host;
use crate::keypair_generator::Algorithm;

verus! {

#[verifier::external_type_specification]
#[verifier::external_body]
pub struct ExDecodeError(base64::DecodeError);

/// The standard padded base64 encoding (RFC 4648) of a byte sequence.
pub uninterp spec fn b64_of(bytes: Seq<u8>) -> Seq<char>;

/// Relies on `base64::Engine::encode` with the
/// `engine::general_purpose::STANDARD` engine: the standard padded
/// alphabet, where the output depends on the input bytes alone.
#[verifier::external_body]
fn b64_encode(bytes: &[u8]) -> (r: String)
    ensures
        r@ == b64_of(bytes@),
{
    base64::engine::general_purpose::STANDARD.encode(bytes)
}

/// Relies on `base64::Engine::decode` with the
/// `engine::general_purpose::STANDARD` engine: it requires canonical
/// padding and rejects trailing bits, so a string decodes successfully
/// exactly when it is the standard encoding of some byte sequence, and
/// then to those bytes; four encoded characters never carry more than
/// three bytes.
#[verifier::external_body]
fn b64_decode(s: &str) -> (r: Result<Vec<u8>, base64::DecodeError>)
    ensures
        (r matches Ok(b) ==> s@ == b64_of(b@) && b@.len() <= s@.len()),
        (forall|b: Seq<u8>| s@ == #[trigger] b64_of(b) ==> r is Ok),
{
    base64::engine::general_purpose::STANDARD.decode(s)
}

/// A handle to a host key-pair object.
#[derive(Debug)]
pub struct KeyPair<'a> {
    inner: JObject<'a>,
}

/// A handle to a host public-key object.
#[derive(Debug)]
pub struct PublicKey<'a> {
    inner: JObject<'a>,
}

/// A handle to a host private-key object.  For hardware-backed keys it
/// only supports host-mediated operations, never export.
#[derive(Debug)]
pub struct PrivateKey<'a> {
    inner: JObject<'a>,
}

impl<'a> KeyPair<'a> {
    pub(crate) fn new(inner: JObject<'a>) -> Self {
        KeyPair { inner }
    }

    /// Extract the public half of the pair.  A failed host call is
    /// propagated as a typed `Host` error.
    pub fn get_public(&self, env: &mut AttachGuard<'a>) -> (r: Result<PublicKey<'a>, HostError>)
        ensures
            (r matches Err(e) ==> e matches HostError::Host(_)),
    {
        match host::call_obj_method(env, &self.inner, "getPublic", "()Ljava/security/PublicKey;") {
            Ok(obj) => Ok(PublicKey { inner: obj }),
            Err(e) => Err(HostError::Host(e)),
        }
    }

    /// Extract the private half of the pair.  A failed host call is
    /// propagated as a typed `Host` error.
    pub fn get_private(&self, env: &mut AttachGuard<'a>) -> (r: Result<PrivateKey<'a>, HostError>)
        ensures
            (r matches Err(e) ==> e matches HostError::Host(_)),
    {
        match host::call_obj_method(env, &self.inner, "getPrivate", "()Ljava/security/PrivateKey;")
        {
            Ok(obj) => Ok(PrivateKey { inner: obj }),
            Err(e) => Err(HostError::Host(e)),
        }
    }
}

impl<'a> PublicKey<'a> {
    /// Fetch the key's standard encoded byte form (X.509
    /// SubjectPublicKeyInfo) from the host and return its standard
    /// padded base64 encoding.
    pub fn get_decoded(&self, env: &mut AttachGuard<'a>) -> (r: Result<String, HostError>)
        ensures
            (r matches Ok(s) ==> exists|b: Seq<u8>| s@ == #[trigger] b64_of(b)),
            (r matches Err(e) ==> e matches HostError::Host(_)),
    {
        let bytes = match host::call_byte_array_method(env, &self.inner, "getEncoded", "()[B") {
            Ok(b) => b,
            Err(e) => {
                return Err(HostError::Host(e));
            },
        };
        Ok(b64_encode(bytes.as_slice()))
    }

    /// Reconstruct a public key from its standard padded base64 X.509
    /// form: the string is decoded, wrapped in a host X.509 key
    /// specification, and handed to the algorithm's key factory.  A
    /// string that is not a standard encoding of any byte sequence
    /// fails with a typed `Base64` error, and exactly such a string
    /// does; an unavailable key factory is a typed `Setup` error, and
    /// a pending host exception from the factory is described and
    /// reported as a typed `Host` error.
    pub fn from_x509_string(s: &str, algorithm: Algorithm, env: &mut AttachGuard<'a>) -> (r: Result<
        PublicKey<'a>,
        HostError,
    >)
        requires
            s@.len() <= 0x7fff_ffff,
        ensures
            ((r matches Err(HostError::Base64(_))) <==> (forall|b: Seq<u8>| s@ != #[trigger] b64_of(
                b,
            ))),
            (r matches Err(e) ==> (e matches HostError::Base64(_) || e matches HostError::Setup(_)
                || e matches HostError::Host(_))),
    {
        let bytes = match b64_decode(s) {
            Ok(b) => b,
            Err(e) => {
                return Err(HostError::Base64(e));
            },
        };
        let key_factory = match host::call_static_obj_method_str_arg(
            env,
            "java/security/KeyFactory",
            "getInstance",
            "(Ljava/lang/String;)Ljava/security/KeyFactory;",
            algorithm.name(),
        ) {
            Ok(o) => o,
            Err(e) => {
                return Err(HostError::Setup(e));
            },
        };
        let spec_public = match host::new_object_byte_array_arg(
            env,
            "java/security/spec/X509EncodedKeySpec",
            "([B)V",
            bytes.as_slice(),
        ) {
            Ok(o) => o,
            Err(e) => {
                return Err(HostError::Host(e));
            },
        };
        let key_res = host::call_obj_method_obj_arg(
            env,
            &key_factory,
            "generatePublic",
            "(Ljava/security/spec/KeySpec;)Ljava/security/PublicKey;",
            &spec_public,
        );
        let pending = match host::exception_check(env) {
            Ok(b) => b,
            Err(e) => {
                return Err(HostError::Host(e));
            },
        };
        if pending {
            match host::exception_describe(env) {
                Ok(()) => {
                },
                Err(e) => {
                    return Err(HostError::Host(e));
                },
            }
        }
        match key_res {
            Ok(obj) => Ok(PublicKey { inner: obj }),
            Err(e) => Err(HostError::Host(e)),
        }
    }
}

impl<'a> PrivateKey<'a> {
    pub(crate) fn new(inner: JObject<'a>) -> Self {
        PrivateKey { inner }
    }
}

impl<'a> Object<'a> for KeyPair<'a> {
    fn class() -> &'static str {
        "java/security/KeyPair"
    }

    fn l(&self) -> &JObject<'a> {
        &self.inner
    }
}

impl<'a> Object<'a> for PublicKey<'a> {
    fn class() -> &'static str {
        "java/security/PublicKey"
    }

    fn l(&self) -> &JObject<'a> {
        &self.inner
    }
}

impl<'a> Object<'a> for PrivateKey<'a> {
    fn class() -> &'static str {
        "java/security/PrivateKey"
    }

    fn l(&self) -> &JObject<'a> {
        &self.inner
    }
}

/// Law: decoding a standard padded base64 string and re-encoding the
/// bytes yields the identical string, so the round trip from an
/// encoded key form through its bytes and back is the identity on the
/// encoded form.  A string that no byte sequence encodes to is
/// rejected with a typed `Base64` error instead.
pub fn reencode_x509_string(s: &str) -> (r: Result<String, HostError>)
    ensures
        (r matches Ok(t) ==> t@ == s@),
        (r is Ok <==> exists|b: Seq<u8>| s@ == #[trigger] b64_of(b)),
        (r matches Err(e) ==> e matches HostError::Base64(_)),
{
    match b64_decode(s) {
        Ok(bytes) => Ok(b64_encode(bytes.as_slice())),
        Err(e) => Err(HostError::Base64(e)),
    }
}

} // verus!
