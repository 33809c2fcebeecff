//! Configuration of key generation: purposes, digests, paddings and
//! user-authentication requirements, accumulated by a builder and
//! finalized into an immutable host parameter-spec object.

use vstd::prelude::*;
use vstd::string::StringExecFns;

use jni::AttachGuard;
use jni::objects::JObject;

use crate::HostError;
use crate::Object;
use crate::host;
use crate::utils::make_string_array;

verus! {

/// An intent flag for a generated key, one bit of the purposes bitmask
/// handed to the host spec builder.
#[derive(Clone, Copy, Debug, PartialEq, Eq, Structural)]
pub enum Purpose {
    Encrypt,
    Decrypt,
    Sign,
    Verify,
    WrapKey,
    AgreeKey,
    AttestKey,
}

/// The bit the host assigns to each purpose.
pub open spec fn spec_purpose_value(p: Purpose) -> u32 {
    match p {
        Purpose::Encrypt => 1,
        Purpose::Decrypt => 2,
        Purpose::Sign => 4,
        Purpose::Verify => 8,
        Purpose::WrapKey => 32,
        Purpose::AgreeKey => 64,
        Purpose::AttestKey => 128,
    }
}

/// The bitwise OR of the values of all purposes in the sequence.
pub open spec fn spec_purpose_mask(ps: Seq<Purpose>) -> u32
    decreases ps.len(),
{
    if ps.len() == 0 {
        0u32
    } else {
        spec_purpose_mask(ps.drop_last()) | spec_purpose_value(ps.last())
    }
}

/// Whether the bit assigned to `p` is set in `m`.
pub open spec fn mask_has_purpose(m: u32, p: Purpose) -> bool {
    m & spec_purpose_value(p) != 0
}

impl Purpose {
    /// The host's numeric value of this purpose flag.
    pub fn value(self) -> (v: u32)
        ensures
            v == spec_purpose_value(self),
    {
        match self {
            Purpose::Encrypt => 1,
            Purpose::Decrypt => 2,
            Purpose::Sign => 4,
            Purpose::Verify => 8,
            Purpose::WrapKey => 32,
            Purpose::AgreeKey => 64,
            Purpose::AttestKey => 128,
        }
    }
}

/// Every purpose value is one of the seven host bits.
proof fn lemma_purpose_value_cases(p: Purpose)
    ensures
        spec_purpose_value(p) == 1 || spec_purpose_value(p) == 2 || spec_purpose_value(p) == 4
            || spec_purpose_value(p) == 8 || spec_purpose_value(p) == 32 || spec_purpose_value(p)
            == 64 || spec_purpose_value(p) == 128,
{
}

/// The purpose values are single distinct bits: two of them share a set
/// bit exactly when they are the value of the same purpose.
proof fn lemma_purpose_value_disjoint(p: Purpose, q: Purpose)
    ensures
        (spec_purpose_value(p) & spec_purpose_value(q) != 0) <==> p == q,
{
    lemma_purpose_value_cases(p);
    lemma_purpose_value_cases(q);
    let v = spec_purpose_value(p);
    let w = spec_purpose_value(q);
    assert((v == 1 || v == 2 || v == 4 || v == 8 || v == 32 || v == 64 || v == 128) && (w == 1 || w
        == 2 || w == 4 || w == 8 || w == 32 || w == 64 || w == 128) ==> ((v & w != 0) <==> v == w))
        by (bit_vector);
}

/// A combined purpose mask never exceeds the seven host bits.
pub proof fn lemma_purpose_mask_bound(ps: Seq<Purpose>)
    ensures
        spec_purpose_mask(ps) < 256,
    decreases ps.len(),
{
    if ps.len() == 0 {
    } else {
        lemma_purpose_mask_bound(ps.drop_last());
        lemma_purpose_value_cases(ps.last());
        let m = spec_purpose_mask(ps.drop_last());
        let v = spec_purpose_value(ps.last());
        assert(m < 256 && v < 256 ==> (m | v) < 256) by (bit_vector);
    }
}

/// Each bit of the combined mask records exactly the membership of the
/// corresponding purpose: the mask decomposes losslessly into the set
/// of purposes it was built from.
pub proof fn lemma_purpose_mask_contains(ps: Seq<Purpose>)
    ensures
        forall|p: Purpose| #[trigger] mask_has_purpose(spec_purpose_mask(ps), p) <==> ps.contains(
            p,
        ),
    decreases ps.len(),
{
    if ps.len() == 0 {
        assert forall|p: Purpose| !mask_has_purpose(spec_purpose_mask(ps), p) by {
            let v = spec_purpose_value(p);
            assert(0u32 & v == 0) by (bit_vector);
        }
    } else {
        let head = ps.drop_last();
        let x = ps.last();
        lemma_purpose_mask_contains(head);
        let m = spec_purpose_mask(head);
        let v = spec_purpose_value(x);
        assert forall|p: Purpose| #[trigger]
            mask_has_purpose(spec_purpose_mask(ps), p) <==> ps.contains(p) by {
            let w = spec_purpose_value(p);
            assert(spec_purpose_mask(ps) == (m | v));
            assert(((m | v) & w != 0) <==> ((m & w != 0) || (v & w != 0))) by (bit_vector);
            lemma_purpose_value_disjoint(x, p);
            assert(mask_has_purpose(m, p) <==> head.contains(p));
            if head.contains(p) {
                let i = choose|i: int| 0 <= i < head.len() && head[i] == p;
                assert(ps[i] == p);
                assert(ps.contains(p));
            }
            if x == p {
                assert(ps[ps.len() - 1] == p);
                assert(ps.contains(p));
            }
            if ps.contains(p) && x != p {
                let i = choose|i: int| 0 <= i < ps.len() && ps[i] == p;
                assert(i < ps.len() - 1);
                assert(head[i] == p);
                assert(head.contains(p));
            }
        }
    }
}

/// Two purpose sequences with the same members build the same mask:
/// the mask depends only on the set of purposes, each set bit mapping
/// to exactly one enumerated purpose.
pub proof fn lemma_purpose_mask_lossless(ps: Seq<Purpose>, qs: Seq<Purpose>)
    requires
        forall|p: Purpose| ps.contains(p) <==> qs.contains(p),
    ensures
        spec_purpose_mask(ps) == spec_purpose_mask(qs),
{
    lemma_purpose_mask_contains(ps);
    lemma_purpose_mask_contains(qs);
    lemma_purpose_mask_bound(ps);
    lemma_purpose_mask_bound(qs);
    let m1 = spec_purpose_mask(ps);
    let m2 = spec_purpose_mask(qs);
    assert(mask_has_purpose(m1, Purpose::Encrypt) == mask_has_purpose(m2, Purpose::Encrypt));
    assert(mask_has_purpose(m1, Purpose::Decrypt) == mask_has_purpose(m2, Purpose::Decrypt));
    assert(mask_has_purpose(m1, Purpose::Sign) == mask_has_purpose(m2, Purpose::Sign));
    assert(mask_has_purpose(m1, Purpose::Verify) == mask_has_purpose(m2, Purpose::Verify));
    assert(mask_has_purpose(m1, Purpose::WrapKey) == mask_has_purpose(m2, Purpose::WrapKey));
    assert(mask_has_purpose(m1, Purpose::AgreeKey) == mask_has_purpose(m2, Purpose::AgreeKey));
    assert(mask_has_purpose(m1, Purpose::AttestKey) == mask_has_purpose(m2, Purpose::AttestKey));
    lemma_purpose_mask_no_stray_bits(ps);
    lemma_purpose_mask_no_stray_bits(qs);
    assert(((m1 & 1 != 0) == (m2 & 1 != 0)) && ((m1 & 2 != 0) == (m2 & 2 != 0)) && ((m1 & 4 != 0)
        == (m2 & 4 != 0)) && ((m1 & 8 != 0) == (m2 & 8 != 0)) && ((m1 & 32 != 0) == (m2 & 32 != 0))
        && ((m1 & 64 != 0) == (m2 & 64 != 0)) && ((m1 & 128 != 0) == (m2 & 128 != 0)) && m1 & 0xef
        == m1 && m2 & 0xef == m2 ==> m1 == m2) by (bit_vector);
}

/// A combined purpose mask has no bits outside the seven host bits.
pub proof fn lemma_purpose_mask_no_stray_bits(ps: Seq<Purpose>)
    ensures
        spec_purpose_mask(ps) & 0xef == spec_purpose_mask(ps),
    decreases ps.len(),
{
    if ps.len() == 0 {
        assert(0u32 & 0xef == 0u32) by (bit_vector);
    } else {
        lemma_purpose_mask_no_stray_bits(ps.drop_last());
        lemma_purpose_value_cases(ps.last());
        let m = spec_purpose_mask(ps.drop_last());
        let v = spec_purpose_value(ps.last());
        assert(m & 0xef == m && (v == 1 || v == 2 || v == 4 || v == 8 || v == 32 || v == 64 || v
            == 128) ==> (m | v) & 0xef == (m | v)) by (bit_vector);
    }
}

/// Combine a set of purposes into the bitmask the host expects: the
/// bitwise OR of each purpose's individual value.
pub fn purpose_mask(ps: &[Purpose]) -> (m: u32)
    ensures
        m == spec_purpose_mask(ps@),
{
    let mut m: u32 = 0;
    let mut i: usize = 0;
    while i < ps.len()
        invariant
            i <= ps@.len(),
            m == spec_purpose_mask(ps@.take(i as int)),
        decreases ps@.len() - i,
    {
        m = m | ps[i].value();
        i = i + 1;
        proof {
            assert(ps@.take(i as int).drop_last() =~= ps@.take(i - 1));
            assert(ps@.take(i as int).last() == ps@[i - 1]);
        }
    }
    proof {
        assert(ps@.take(ps@.len() as int) =~= ps@);
    }
    m
}

/// Recover from a bitmask the set of purposes whose bits are set, each
/// exactly once, in declaration order.
pub fn purposes_from_mask(m: u32) -> (ps: Vec<Purpose>)
    ensures
        forall|p: Purpose| #[trigger] ps@.contains(p) <==> mask_has_purpose(m, p),
        forall|i: int, j: int| 0 <= i < j < ps@.len() ==> ps@[i] != ps@[j],
{
    broadcast use vstd::seq_lib::lemma_seq_contains_after_push;

    let mut ps: Vec<Purpose> = Vec::new();
    if m & 1 != 0 {
        ps.push(Purpose::Encrypt);
    }
    proof {
        assert(forall|p: Purpose| #[trigger] ps@.contains(p) <==> (p == Purpose::Encrypt && m & 1
            != 0));
        assert(ps@.no_duplicates());
    }
    if m & 2 != 0 {
        ps.push(Purpose::Decrypt);
    }
    proof {
        assert(forall|p: Purpose| #[trigger] ps@.contains(p) <==> ((p == Purpose::Encrypt && m & 1
            != 0) || (p == Purpose::Decrypt && m & 2 != 0)));
        assert(ps@.no_duplicates());
    }
    if m & 4 != 0 {
        ps.push(Purpose::Sign);
    }
    proof {
        assert(forall|p: Purpose| #[trigger] ps@.contains(p) <==> ((p == Purpose::Encrypt && m & 1
            != 0) || (p == Purpose::Decrypt && m & 2 != 0) || (p == Purpose::Sign && m & 4 != 0)));
        assert(ps@.no_duplicates());
    }
    if m & 8 != 0 {
        ps.push(Purpose::Verify);
    }
    proof {
        assert(forall|p: Purpose| #[trigger] ps@.contains(p) <==> ((p == Purpose::Encrypt && m & 1
            != 0) || (p == Purpose::Decrypt && m & 2 != 0) || (p == Purpose::Sign && m & 4 != 0) || (
        p == Purpose::Verify && m & 8 != 0)));
        assert(ps@.no_duplicates());
    }
    if m & 32 != 0 {
        ps.push(Purpose::WrapKey);
    }
    proof {
        assert(forall|p: Purpose| #[trigger] ps@.contains(p) <==> ((p == Purpose::Encrypt && m & 1
            != 0) || (p == Purpose::Decrypt && m & 2 != 0) || (p == Purpose::Sign && m & 4 != 0) || (
        p == Purpose::Verify && m & 8 != 0) || (p == Purpose::WrapKey && m & 32 != 0)));
        assert(ps@.no_duplicates());
    }
    if m & 64 != 0 {
        ps.push(Purpose::AgreeKey);
    }
    proof {
        assert(forall|p: Purpose| #[trigger] ps@.contains(p) <==> ((p == Purpose::Encrypt && m & 1
            != 0) || (p == Purpose::Decrypt && m & 2 != 0) || (p == Purpose::Sign && m & 4 != 0) || (
        p == Purpose::Verify && m & 8 != 0) || (p == Purpose::WrapKey && m & 32 != 0) || (p
            == Purpose::AgreeKey && m & 64 != 0)));
        assert(ps@.no_duplicates());
    }
    if m & 128 != 0 {
        ps.push(Purpose::AttestKey);
    }
    proof {
        assert(forall|p: Purpose| #[trigger] ps@.contains(p) <==> ((p == Purpose::Encrypt && m & 1
            != 0) || (p == Purpose::Decrypt && m & 2 != 0) || (p == Purpose::Sign && m & 4 != 0) || (
        p == Purpose::Verify && m & 8 != 0) || (p == Purpose::WrapKey && m & 32 != 0) || (p
            == Purpose::AgreeKey && m & 64 != 0) || (p == Purpose::AttestKey && m & 128 != 0)));
        assert(ps@.no_duplicates());
        assert forall|p: Purpose| #[trigger] ps@.contains(p) <==> mask_has_purpose(m, p) by {
            lemma_purpose_value_cases(p);
        }
    }
    ps
}

/// A digest algorithm a generated key may be used with, named by the
/// host's enumerated token.
#[derive(Clone, Copy, Debug, PartialEq, Eq, Structural)]
pub enum Digest {
    NoDigest,
    Md5,
    Sha1,
    Sha224,
    Sha256,
    Sha384,
    Sha512,
}

/// The host's name token for each digest choice.
pub open spec fn spec_digest_name(d: Digest) -> Seq<char> {
    match d {
        Digest::NoDigest => "NONE"@,
        Digest::Md5 => "MD5"@,
        Digest::Sha1 => "SHA-1"@,
        Digest::Sha224 => "SHA-224"@,
        Digest::Sha256 => "SHA-256"@,
        Digest::Sha384 => "SHA-384"@,
        Digest::Sha512 => "SHA-512"@,
    }
}

impl Digest {
    /// The host's name token for this digest choice.
    pub fn name(self) -> (r: &'static str)
        ensures
            r@ == spec_digest_name(self),
    {
        match self {
            Digest::NoDigest => "NONE",
            Digest::Md5 => "MD5",
            Digest::Sha1 => "SHA-1",
            Digest::Sha224 => "SHA-224",
            Digest::Sha256 => "SHA-256",
            Digest::Sha384 => "SHA-384",
            Digest::Sha512 => "SHA-512",
        }
    }
}

/// An encryption padding scheme a generated key may be used with,
/// named by the host's enumerated token.
#[derive(Clone, Copy, Debug, PartialEq, Eq, Structural)]
pub enum Padding {
    NoPadding,
    Pkcs7,
    RsaOaep,
    RsaPkcs1,
}

/// The host's name token for each padding choice.
pub open spec fn spec_padding_name(p: Padding) -> Seq<char> {
    match p {
        Padding::NoPadding => "NoPadding"@,
        Padding::Pkcs7 => "PKCS7Padding"@,
        Padding::RsaOaep => "OAEPPadding"@,
        Padding::RsaPkcs1 => "PKCS1Padding"@,
    }
}

impl Padding {
    /// The host's name token for this padding choice.
    pub fn name(self) -> (r: &'static str)
        ensures
            r@ == spec_padding_name(self),
    {
        match self {
            Padding::NoPadding => "NoPadding",
            Padding::Pkcs7 => "PKCS7Padding",
            Padding::RsaOaep => "OAEPPadding",
            Padding::RsaPkcs1 => "PKCS1Padding",
        }
    }
}

/// A way the user may authenticate to authorize use of a key, one bit
/// of the authentication-types bitmask.
#[derive(Clone, Copy, Debug, PartialEq, Eq, Structural)]
pub enum AuthType {
    DeviceCredential,
    BiometricStrong,
}

/// The bit the host assigns to each authentication type.
pub open spec fn spec_auth_type_value(a: AuthType) -> u32 {
    match a {
        AuthType::DeviceCredential => 1,
        AuthType::BiometricStrong => 2,
    }
}

/// The bitwise OR of the values of all authentication types in the
/// sequence.
pub open spec fn spec_auth_type_mask(auths: Seq<AuthType>) -> u32
    decreases auths.len(),
{
    if auths.len() == 0 {
        0u32
    } else {
        spec_auth_type_mask(auths.drop_last()) | spec_auth_type_value(auths.last())
    }
}

impl AuthType {
    /// The host's numeric value of this authentication type.
    pub fn value(self) -> (v: u32)
        ensures
            v == spec_auth_type_value(self),
    {
        match self {
            AuthType::DeviceCredential => 1,
            AuthType::BiometricStrong => 2,
        }
    }
}

/// A combined authentication-types mask never exceeds the two host
/// bits.
pub proof fn lemma_auth_type_mask_bound(auths: Seq<AuthType>)
    ensures
        spec_auth_type_mask(auths) < 4,
    decreases auths.len(),
{
    if auths.len() == 0 {
    } else {
        lemma_auth_type_mask_bound(auths.drop_last());
        let m = spec_auth_type_mask(auths.drop_last());
        let v = spec_auth_type_value(auths.last());
        assert(m < 4 && v < 4 ==> (m | v) < 4) by (bit_vector);
    }
}

/// Combine a set of authentication types into the bitmask the host
/// expects.
pub fn auth_type_mask(auths: &[AuthType]) -> (m: u32)
    ensures
        m == spec_auth_type_mask(auths@),
{
    let mut m: u32 = 0;
    let mut i: usize = 0;
    while i < auths.len()
        invariant
            i <= auths@.len(),
            m == spec_auth_type_mask(auths@.take(i as int)),
        decreases auths@.len() - i,
    {
        m = m | auths[i].value();
        i = i + 1;
        proof {
            assert(auths@.take(i as int).drop_last() =~= auths@.take(i - 1));
            assert(auths@.take(i as int).last() == auths@[i - 1]);
        }
    }
    proof {
        assert(auths@.take(auths@.len() as int) =~= auths@);
    }
    m
}

/// The configuration a builder has accumulated, as plain mathematical
/// values.
pub struct BuilderConfig {
    pub alias: Seq<char>,
    pub purposes: u32,
    pub digests: Option<Seq<Digest>>,
    pub encryption_paddings: Option<Seq<Padding>>,
    pub user_auth_params: Option<(u32, u32)>,
    pub user_auth_required: Option<bool>,
}

/// Builder-style accumulator for key generation constraints.  The
/// configuration is gathered as plain native values, and handed to the
/// host spec-builder object in one sweep when `build` is called.
pub struct Builder {
    alias: String,
    purposes: u32,
    digests: Option<Vec<Digest>>,
    encryption_paddings: Option<Vec<Padding>>,
    user_auth_params: Option<(u32, u32)>,
    user_auth_required: Option<bool>,
}

impl View for Builder {
    type V = BuilderConfig;

    closed spec fn view(&self) -> BuilderConfig {
        BuilderConfig {
            alias: self.alias@,
            purposes: self.purposes,
            digests: match self.digests {
                Option::Some(ds) => Option::Some(ds@),
                Option::None => Option::None,
            },
            encryption_paddings: match self.encryption_paddings {
                Option::Some(pds) => Option::Some(pds@),
                Option::None => Option::None,
            },
            user_auth_params: self.user_auth_params,
            user_auth_required: self.user_auth_required,
        }
    }
}

/// The bounds every builder maintains so that its configuration fits
/// the host's 32-bit signed integers.
pub open spec fn config_wf(c: BuilderConfig) -> bool {
    &&& c.purposes < 256
    &&& match c.user_auth_params {
        Option::Some((timeout, auth_mask)) => timeout <= 0x7fff_ffff && auth_mask < 4,
        Option::None => true,
    }
    &&& match c.digests {
        Option::Some(ds) => ds.len() <= 0x7fff_ffff,
        Option::None => true,
    }
    &&& match c.encryption_paddings {
        Option::Some(pds) => pds.len() <= 0x7fff_ffff,
        Option::None => true,
    }
}

/// An immutable, finalized key-generation parameter spec held by the
/// host, together with the configuration it was built from.  Only
/// `Builder::build` constructs one, so the recorded configuration is
/// always the one the host object was sealed from.
pub struct KeyGenParameterSpec<'a> {
    pub(crate) inner: JObject<'a>,
    pub(crate) config: Ghost<BuilderConfig>,
}

impl<'a> KeyGenParameterSpec<'a> {
    /// The configuration this spec was finalized from.
    pub closed spec fn config(self) -> BuilderConfig {
        self.config@
    }
}

impl Builder {
    /// Start a builder for a key under the given alias, usable for the
    /// given set of purposes; the purposes are combined into their
    /// bitmask at once.
    pub fn new(alias: &str, purposes: &[Purpose]) -> (b: Builder)
        ensures
            b@ == (BuilderConfig {
                alias: alias@,
                purposes: spec_purpose_mask(purposes@),
                digests: Option::None,
                encryption_paddings: Option::None,
                user_auth_params: Option::None,
                user_auth_required: Option::None,
            }),
            config_wf(b@),
    {
        proof {
            lemma_purpose_mask_bound(purposes@);
        }
        Builder {
            alias: String::from_str(alias),
            purposes: purpose_mask(purposes),
            digests: Option::None,
            encryption_paddings: Option::None,
            user_auth_params: Option::None,
            user_auth_required: Option::None,
        }
    }

    /// Record the digest choices, in order.
    pub fn set_digests(self, digests: &[Digest]) -> (b: Builder)
        requires
            digests@.len() <= 0x7fff_ffff,
        ensures
            b@ == (BuilderConfig { digests: Option::Some(digests@), ..self@ }),
            config_wf(self@) ==> config_wf(b@),
    {
        Builder { digests: Option::Some(vstd::slice::slice_to_vec(digests)), ..self }
    }

    /// Record the encryption padding choices, in order.
    pub fn set_encryption_paddings(self, paddings: &[Padding]) -> (b: Builder)
        requires
            paddings@.len() <= 0x7fff_ffff,
        ensures
            b@ == (BuilderConfig { encryption_paddings: Option::Some(paddings@), ..self@ }),
            config_wf(self@) ==> config_wf(b@),
    {
        Builder {
            encryption_paddings: Option::Some(vstd::slice::slice_to_vec(paddings)),
            ..self
        }
    }

    /// Record the user-authentication validity timeout, in seconds, and
    /// the set of accepted authentication types, combined into their
    /// bitmask at once.
    pub fn set_user_authentication_parameters(self, timeout: usize, auth_types: &[AuthType]) -> (b:
        Builder)
        requires
            timeout <= 0x7fff_ffff,
        ensures
            b@ == (BuilderConfig {
                user_auth_params: Option::Some(
                    (timeout as u32, spec_auth_type_mask(auth_types@)),
                ),
                ..self@
            }),
            config_wf(self@) ==> config_wf(b@),
    {
        proof {
            lemma_auth_type_mask_bound(auth_types@);
        }
        Builder {
            user_auth_params: Option::Some((timeout as u32, auth_type_mask(auth_types))),
            ..self
        }
    }

    /// Record whether using the key requires the user to have
    /// authenticated.
    pub fn set_user_authentication_required(self, required: bool) -> (b: Builder)
        ensures
            b@ == (BuilderConfig { user_auth_required: Option::Some(required), ..self@ }),
            config_wf(self@) ==> config_wf(b@),
    {
        Builder { user_auth_required: Option::Some(required), ..self }
    }

    /// The alias the key will be stored under.
    pub fn alias(&self) -> (r: &str)
        ensures
            r@ == self@.alias,
    {
        self.alias.as_str()
    }

    /// The combined purposes bitmask accumulated so far.
    pub fn purposes(&self) -> (r: u32)
        ensures
            r == self@.purposes,
    {
        self.purposes
    }

    /// The digest choices recorded so far, if they were set.
    pub fn digests(&self) -> (r: Option<&Vec<Digest>>)
        ensures
            (match r {
                Option::Some(ds) => self@.digests == Option::Some(ds@),
                Option::None => self@.digests is None,
            }),
    {
        self.digests.as_ref()
    }

    /// The encryption padding choices recorded so far, if they were
    /// set.
    pub fn encryption_paddings(&self) -> (r: Option<&Vec<Padding>>)
        ensures
            (match r {
                Option::Some(pds) => self@.encryption_paddings == Option::Some(pds@),
                Option::None => self@.encryption_paddings is None,
            }),
    {
        self.encryption_paddings.as_ref()
    }

    /// The user-authentication timeout and authentication-types
    /// bitmask, if they were set.
    pub fn user_authentication_parameters(&self) -> (r: Option<(u32, u32)>)
        ensures
            r == self@.user_auth_params,
    {
        self.user_auth_params
    }

    /// Whether user authentication was required, if it was set.
    pub fn user_authentication_required(&self) -> (r: Option<bool>)
        ensures
            r == self@.user_auth_required,
    {
        self.user_auth_required
    }

    /// Finalize the accumulated configuration into an immutable host
    /// spec object: the host builder is constructed from the alias and
    /// the purposes bitmask, each recorded option is applied to it in
    /// order, and its `build` method seals the result.  A failed host
    /// call is propagated as a typed `Host` error.
    pub fn build<'a>(self, env: &mut AttachGuard<'a>) -> (r: Result<
        KeyGenParameterSpec<'a>,
        HostError,
    >)
        requires
            config_wf(self@),
        ensures
            (r matches Ok(spec) ==> spec.config() == self@),
            (r matches Err(e) ==> e matches HostError::Host(_)),
    {
        let ghost cfg = self@;
        let mut inner = match host::new_object_str_int_args(
            env,
            "android/security/keystore/KeyGenParameterSpec$Builder",
            "(Ljava/lang/String;I)V",
            self.alias.as_str(),
            self.purposes as i32,
        ) {
            Ok(o) => o,
            Err(e) => {
                return Err(HostError::Host(e));
            },
        };
        if let Option::Some(ds) = &self.digests {
            let names = digest_names(ds);
            let arr = match make_string_array(names.as_slice(), env) {
                Ok(a) => a,
                Err(e) => {
                    return Err(e);
                },
            };
            inner =
            match host::call_obj_method_array_arg(
                env,
                &inner,
                "setDigests",
                "([Ljava/lang/String;)Landroid/security/keystore/KeyGenParameterSpec$Builder;",
                &arr,
            ) {
                Ok(o) => o,
                Err(e) => {
                    return Err(HostError::Host(e));
                },
            };
        }
        if let Option::Some(pds) = &self.encryption_paddings {
            let names = padding_names(pds);
            let arr = match make_string_array(names.as_slice(), env) {
                Ok(a) => a,
                Err(e) => {
                    return Err(e);
                },
            };
            inner =
            match host::call_obj_method_array_arg(
                env,
                &inner,
                "setEncryptionPaddings",
                "([Ljava/lang/String;)Landroid/security/keystore/KeyGenParameterSpec$Builder;",
                &arr,
            ) {
                Ok(o) => o,
                Err(e) => {
                    return Err(HostError::Host(e));
                },
            };
        }
        if let Option::Some((timeout, auth_mask)) = self.user_auth_params {
            inner =
            match host::call_obj_method_int_int_args(
                env,
                &inner,
                "setUserAuthenticationParameters",
                "(II)Landroid/security/keystore/KeyGenParameterSpec$Builder;",
                timeout as i32,
                auth_mask as i32,
            ) {
                Ok(o) => o,
                Err(e) => {
                    return Err(HostError::Host(e));
                },
            };
        }
        if let Option::Some(required) = self.user_auth_required {
            inner =
            match host::call_obj_method_bool_arg(
                env,
                &inner,
                "setUserAuthenticationRequired",
                "(Z)Landroid/security/keystore/KeyGenParameterSpec$Builder;",
                required,
            ) {
                Ok(o) => o,
                Err(e) => {
                    return Err(HostError::Host(e));
                },
            };
        }
        let sealed = match host::call_obj_method(
            env,
            &inner,
            "build",
            "()Landroid/security/keystore/KeyGenParameterSpec;",
        ) {
            Ok(o) => o,
            Err(e) => {
                return Err(HostError::Host(e));
            },
        };
        Ok(KeyGenParameterSpec { inner: sealed, config: Ghost(cfg) })
    }
}

impl<'a> Object<'a> for KeyGenParameterSpec<'a> {
    fn class() -> &'static str {
        "android/security/keystore/KeyGenParameterSpec"
    }

    fn l(&self) -> &JObject<'a> {
        &self.inner
    }
}

/// The host name tokens of the given digests, in order.
fn digest_names(ds: &Vec<Digest>) -> (r: Vec<String>)
    ensures
        r@.len() == ds@.len(),
        forall|i: int| 0 <= i < ds@.len() ==> r@[i]@ == spec_digest_name(ds@[i]),
{
    let mut r: Vec<String> = Vec::new();
    let mut i: usize = 0;
    while i < ds.len()
        invariant
            i <= ds@.len(),
            r@.len() == i,
            forall|j: int| 0 <= j < i ==> r@[j]@ == spec_digest_name(ds@[j]),
        decreases ds@.len() - i,
    {
        r.push(String::from_str(ds[i].name()));
        i = i + 1;
    }
    r
}

/// The host name tokens of the given paddings, in order.
fn padding_names(pds: &Vec<Padding>) -> (r: Vec<String>)
    ensures
        r@.len() == pds@.len(),
        forall|i: int| 0 <= i < pds@.len() ==> r@[i]@ == spec_padding_name(pds@[i]),
{
    let mut r: Vec<String> = Vec::new();
    let mut i: usize = 0;
    while i < pds.len()
        invariant
            i <= pds@.len(),
            r@.len() == i,
            forall|j: int| 0 <= j < i ==> r@[j]@ == spec_padding_name(pds@[j]),
        decreases pds@.len() - i,
    {
        r.push(String::from_str(pds[i].name()));
        i = i + 1;
    }
    r
}

} // verus!
