//! Proxy over the host's key-pair generator singleton.

use vstd::prelude::*;

use jni::AttachGuard;
use jni::objects::JObject;

use crate::HostError;
use crate::Object;
use crate::host;
use crate::keygen_parameter_spec::KeyGenParameterSpec;
use crate::keypair::KeyPair;

verus! {

/// A key-pair generation algorithm, named by the host's token.
#[derive(Clone, Copy, Debug, PartialEq, Eq, Structural)]
pub enum Algorithm {
    DH,
    DSA,
    EC,
    RSA,
    XDH,
}

/// The host's name token for each algorithm.
pub open spec fn spec_algorithm_name(a: Algorithm) -> Seq<char> {
    match a {
        Algorithm::DH => "DH"@,
        Algorithm::DSA => "DSA"@,
        Algorithm::EC => "EC"@,
        Algorithm::RSA => "RSA"@,
        Algorithm::XDH => "XDH"@,
    }
}

impl Algorithm {
    /// The host's name token for this algorithm.
    pub fn name(self) -> (r: &'static str)
        ensures
            r@ == spec_algorithm_name(self),
    {
        match self {
            Algorithm::DH => "DH",
            Algorithm::DSA => "DSA",
            Algorithm::EC => "EC",
            Algorithm::RSA => "RSA",
            Algorithm::XDH => "XDH",
        }
    }
}

/// A security provider backing the generator, named by the host's
/// token.
#[derive(Clone, Copy, Debug, PartialEq, Eq, Structural)]
pub enum Provider {
    AndroidKeyStore,
}

/// The host's name token for each provider.
pub open spec fn spec_provider_name(p: Provider) -> Seq<char> {
    match p {
        Provider::AndroidKeyStore => "AndroidKeyStore"@,
    }
}

impl Provider {
    /// The host's name token for this provider.
    pub fn name(self) -> (r: &'static str)
        ensures
            r@ == spec_provider_name(self),
    {
        match self {
            Provider::AndroidKeyStore => "AndroidKeyStore",
        }
    }
}

/// The typed failures of obtaining and initializing a generator.
#[derive(Debug)]
pub enum Exception {
    /// The algorithm/provider pair is not supported by the host.
    NoSuchAlgorithmException(jni::errors::Error),
    /// The parameter spec is incompatible with the algorithm, or the
    /// host left an exception pending after `initialize`.
    InvalidAlgorithmParameterException(jni::errors::Error),
}

/// A handle to a host key-pair generator instance.  It is obtained
/// with `get_instance`, becomes usable for generation only after a
/// successful `initialize`, and may then generate any number of key
/// pairs.
pub struct KeyPairGenerator<'a> {
    inner: JObject<'a>,
    initialized: bool,
}

impl<'a> KeyPairGenerator<'a> {
    /// Whether `initialize` has completed successfully on this handle.
    pub closed spec fn initialized(self) -> bool {
        self.initialized
    }

    /// Whether `initialize` has completed successfully on this handle,
    /// observable at run time.
    pub fn is_initialized(&self) -> (b: bool)
        ensures
            b == self.initialized(),
    {
        self.initialized
    }

    /// Obtain the generator singleton for the algorithm/provider pair;
    /// the handle starts uninitialized.  Every failure — the host does
    /// not support the pair — carries the `NoSuchAlgorithm` variant.
    pub fn get_instance(algorithm: Algorithm, provider: Provider, env: &mut AttachGuard<'a>) -> (r:
        Result<Self, Exception>)
        ensures
            (r matches Ok(g) ==> !g.initialized()),
            (r matches Err(e) ==> e matches Exception::NoSuchAlgorithmException(_)),
    {
        match host::call_static_obj_method_str_str_args(
            env,
            "java/security/KeyPairGenerator",
            "getInstance",
            "(Ljava/lang/String;Ljava/lang/String;)Ljava/security/KeyPairGenerator;",
            algorithm.name(),
            provider.name(),
        ) {
            Ok(obj) => Ok(KeyPairGenerator { inner: obj, initialized: false }),
            Err(e) => Err(Exception::NoSuchAlgorithmException(e)),
        }
    }

    /// Initialize the generator with a parameter spec, consuming the
    /// spec.  The host's pending-exception flag is checked explicitly
    /// after the call, since the binding layer may not surface an
    /// incompatible spec as a normal error; a pending exception is
    /// described for diagnostics, and any failure of the call is
    /// reported as `InvalidAlgorithmParameter`.  Only a successful
    /// return leaves the handle initialized.
    pub fn initialize(
        &mut self,
        keygen_parameter_spec: KeyGenParameterSpec<'a>,
        env: &mut AttachGuard<'a>,
    ) -> (r: Result<(), Exception>)
        ensures
            (r is Ok ==> final(self).initialized()),
            (r is Err ==> final(self).initialized() == old(self).initialized()),
            (r matches Err(e) ==> e matches Exception::InvalidAlgorithmParameterException(_)),
    {
        let res = host::call_void_method_obj_arg(
            env,
            &self.inner,
            "initialize",
            "(Ljava/security/spec/AlgorithmParameterSpec;)V",
            &keygen_parameter_spec.inner,
        );
        let pending = match host::exception_check(env) {
            Ok(b) => b,
            Err(e) => {
                return Err(Exception::InvalidAlgorithmParameterException(e));
            },
        };
        if pending {
            match host::exception_describe(env) {
                Ok(()) => {
                },
                Err(e) => {
                    return Err(Exception::InvalidAlgorithmParameterException(e));
                },
            }
        }
        if let Err(e) = res {
            return Err(Exception::InvalidAlgorithmParameterException(e));
        }
        self.initialized = true;
        Ok(())
    }

    /// Generate a key pair.  Valid only after a successful
    /// `initialize`: calling it earlier is a caller contract violation,
    /// which the precondition rules out.  A failed host call is
    /// propagated as a typed `Host` error.
    pub fn generate_keypair(&self, env: &mut AttachGuard<'a>) -> (r: Result<KeyPair<'a>, HostError>)
        requires
            self.initialized(),
        ensures
            (r matches Err(e) ==> e matches HostError::Host(_)),
    {
        match host::call_obj_method(
            env,
            &self.inner,
            "generateKeyPair",
            "()Ljava/security/KeyPair;",
        ) {
            Ok(obj) => Ok(KeyPair::new(obj)),
            Err(e) => Err(HostError::Host(e)),
        }
    }
}

impl<'a> Object<'a> for KeyPairGenerator<'a> {
    fn class() -> &'static str {
        "java/security/KeyPairGenerator"
    }

    fn l(&self) -> &JObject<'a> {
        &self.inner
    }
}

} // verus!
