//! Building to-be-signed certificates and X.509 certificates.

use std::ops::Deref;

use vstd::prelude::*;

use crate::builder_common::{extensions_allowed, option_extension_view, same_but_key_and_state, same_but_state, san_allowed, Builder, NoSubject};
use crate::crypto_provider::NoCryptoProvider;
use vstd::std_specs::cmp::PartialEqSpec;
use crate::crypto_provider::{signs_with, sign_with, AlgorithmIdentifier, CryptoProvider, DefaultPkParameters, PkProvider, Random, SigningAdapter};
use crate::der::{certificate_der, encode_certificate, encode_tbs_certificate, tbs_certificate_der};
use crate::error::{Error, ValidationErrorType};
use crate::key_material::{
    CertificateKeyMaterial, CertificateKeys, DefaultSelfSigningKeyMaterial, NoKeyMaterial, OwnedSigningKeyMaterial, SelfSigningKeyMaterial,
    SpkiKeyMaterial, TbsKeys,
};
use crate::name_builder::{Issuer, Subject};
use crate::oids::spec_subject_alt_name_oid;
use crate::time::{chrono_checked_add, chrono_datetime_valid, spec_after, Duration, UtcDateTime};
use crate::types::{extensions_encodable, name_encodable, extension_oids, extensions_view, NameEntryView, X509Extension, X509ExtensionView};
use crate::util::{
    build_extensions, is_duplicate_extension_error, lemma_built_extensions_encodable, keys_distinct, lemma_built_extensions_distinct, spec_built_extensions,
    spec_san_conflict,
};

verus! {

/// A DER-encoded X.509 certificate.
#[derive(Debug, PartialEq, Eq)]
pub struct Certificate(Vec<u8>);

/// A DER-encoded to-be-signed certificate.
#[derive(Debug, PartialEq, Eq)]
pub struct TbsCertificate(Vec<u8>);

impl View for Certificate {
    type V = Seq<u8>;

    closed spec fn view(&self) -> Seq<u8> {
        self.0@
    }
}

impl View for TbsCertificate {
    type V = Seq<u8>;

    closed spec fn view(&self) -> Seq<u8> {
        self.0@
    }
}

impl Certificate {
    /// Wraps DER bytes built earlier, such as ones read back from storage.
    pub fn from_vec(der: Vec<u8>) -> (r: Self)
        ensures r@ == der@,
    {
        Certificate(der)
    }

    /// The DER bytes, for changing in place.
    pub fn as_mut_slice(&mut self) -> (r: &mut [u8])
        ensures
            r@ == old(self)@,
            final(self)@ == final(r)@,
    {
        self.0.as_mut_slice()
    }

    /// The DER bytes.
    pub fn into_vec(self) -> (r: Vec<u8>)
        ensures r@ == self@,
    {
        self.0
    }

    /// The DER bytes.
    pub fn as_slice(&self) -> (r: &[u8])
        ensures r@ == self@,
    {
        self.0.as_slice()
    }

    /// A builder for certificates and to-be-signed certificates.
    pub fn builder() -> (r: Builder<CertificateState>)
        ensures r.spec_is_fresh(),
    {
        Builder::<CertificateState>::new()
    }
}

impl TbsCertificate {
    /// Wraps DER bytes built earlier, such as ones read back from storage.
    pub fn from_vec(der: Vec<u8>) -> (r: Self)
        ensures r@ == der@,
    {
        TbsCertificate(der)
    }

    /// The DER bytes, for changing in place.
    pub fn as_mut_slice(&mut self) -> (r: &mut [u8])
        ensures
            r@ == old(self)@,
            final(self)@ == final(r)@,
    {
        self.0.as_mut_slice()
    }

    /// The DER bytes.
    pub fn into_vec(self) -> (r: Vec<u8>)
        ensures r@ == self@,
    {
        self.0
    }

    /// The DER bytes.
    pub fn as_slice(&self) -> (r: &[u8])
        ensures r@ == self@,
    {
        self.0.as_slice()
    }
}

impl Deref for Certificate {
    type Target = [u8];

    fn deref(&self) -> (r: &[u8])
        ensures r@ == self@,
    {
        self.0.as_slice()
    }
}

impl Deref for TbsCertificate {
    type Target = [u8];

    fn deref(&self) -> (r: &[u8])
        ensures r@ == self@,
    {
        self.0.as_slice()
    }
}

impl From<Certificate> for Vec<u8> {
    fn from(value: Certificate) -> (r: Vec<u8>)
        ensures r@ == value@,
    {
        value.into_vec()
    }
}

impl vstd::std_specs::convert::FromSpecImpl<Certificate> for Vec<u8> {
    open spec fn obeys_from_spec() -> bool {
        false
    }

    open spec fn from_spec(v: Certificate) -> Vec<u8> {
        arbitrary()
    }
}

impl From<TbsCertificate> for Vec<u8> {
    fn from(value: TbsCertificate) -> (r: Vec<u8>)
        ensures r@ == value@,
    {
        value.into_vec()
    }
}

impl vstd::std_specs::convert::FromSpecImpl<TbsCertificate> for Vec<u8> {
    open spec fn obeys_from_spec() -> bool {
        false
    }

    open spec fn from_spec(v: TbsCertificate) -> Vec<u8> {
        arbitrary()
    }
}

/// The number of random bytes of a serial number.
pub const SERIAL_BYTE_LENGTH: usize = 20;

/// The random bytes with the top bit of the first cleared, so that as a big-endian number
/// they are not negative and their DER encoding takes at most 20 octets.
pub open spec fn spec_cleared(random: Seq<u8>) -> Seq<u8> {
    random.update(0, random[0] & 0x7f)
}

/// All bytes are zero.
pub open spec fn all_zero(bytes: Seq<u8>) -> bool {
    forall|i: int| 0 <= i < bytes.len() ==> bytes[i] == 0
}

/// The serial number made from random bytes: the bytes with the top bit of the first cleared;
/// where that leaves only zeros, the last byte is set to 1, so that the number is positive
/// (RFC 5280 asks for a positive serial number of at most 20 octets).
pub open spec fn spec_serial(random: Seq<u8>) -> Seq<u8> {
    let cleared = spec_cleared(random);
    if all_zero(cleared) {
        cleared.update(cleared.len() - 1, 1)
    } else {
        cleared
    }
}

/// A serial number made from 20 random bytes has 20 bytes, the first below 0x80 (so its DER
/// encoding takes at most 20 octets), and is positive: some byte is not zero.
pub proof fn lemma_serial_positive(random: Seq<u8>)
    requires random.len() == SERIAL_BYTE_LENGTH,
    ensures
        spec_serial(random).len() == SERIAL_BYTE_LENGTH,
        spec_serial(random)[0] < 0x80,
        !all_zero(spec_serial(random)),
{
    let b = random[0];
    assert(b & 0x7f < 0x80) by (bit_vector);
    let s = spec_serial(random);
    if all_zero(spec_cleared(random)) {
        assert(s[SERIAL_BYTE_LENGTH - 1] == 1);
    }
}

/// The serial number for the random bytes `random`.
pub fn serial_from_random(random: Vec<u8>) -> (r: Vec<u8>)
    requires random@.len() == SERIAL_BYTE_LENGTH,
    ensures r@ == spec_serial(random@),
{
    let mut serial = random;
    let first = serial[0];
    serial.set(0, first & 0x7f);
    let ghost cleared = serial@;
    assert(cleared =~= spec_cleared(random@));
    let mut i: usize = 0;
    while i < serial.len()
        invariant
            0 <= i <= serial@.len(),
            serial@ == cleared,
            cleared == spec_cleared(random@),
            cleared.len() == SERIAL_BYTE_LENGTH,
            forall|j: int| 0 <= j < i ==> cleared[j] == 0,
        decreases serial@.len() - i,
    {
        if serial[i] != 0 {
            assert(!all_zero(cleared)) by { assert(cleared[i as int] != 0); }
            return serial;
        }
        i = i + 1;
    }
    assert(all_zero(cleared));
    serial.set(SERIAL_BYTE_LENGTH - 1, 1);
    assert(serial@ =~= cleared.update(cleared.len() - 1, 1));
    serial
}

/// Whether the backend hands out its generator and the generator gives its next bytes, as their
/// models say.
pub open spec fn rng_models_kept<CP: CryptoProvider>() -> bool {
    CP::obeys_provider_spec() && <CP::Rng as Random>::obeys_random_spec()
}

/// The generator of `cp` keeps its model and gives bytes when asked.
pub open spec fn rng_gives<CP: CryptoProvider>(cp: CP) -> bool {
    rng_models_kept::<CP>() && cp.spec_rng().spec_gives()
}

/// A start of the validity period is set, and the configuration is accepted with it.
pub open spec fn tbs_config_accepted_from_start(
    extensions: Seq<X509ExtensionView>,
    san: Option<X509ExtensionView>,
    not_before: Option<(i64, u32)>,
    lifetime: CertLifetime,
) -> bool {
    not_before matches Some(t) && tbs_config_accepted(extensions, san, not_before, lifetime, t)
}

/// The random bytes of a serial number that the generator of `cp` gives next.
pub open spec fn next_serial_random<CP: CryptoProvider>(cp: CP) -> Seq<u8> {
    cp.spec_rng().spec_next_bytes(SERIAL_BYTE_LENGTH as nat)
}

/// Draws the random bytes of a serial number.
fn random_serial_bytes<R: Random>(rng: &mut R) -> (r: Result<Vec<u8>, Error>)
    ensures
        R::obeys_random_spec() ==> (r is Ok <==> old(rng).spec_gives()),
        r matches Ok(v) ==> v@.len() == SERIAL_BYTE_LENGTH,
        R::obeys_random_spec() ==> (r matches Ok(v) ==> v@ == old(rng).spec_next_bytes(SERIAL_BYTE_LENGTH as nat)),
{
    let mut serial: Vec<u8> = vec![0u8; SERIAL_BYTE_LENGTH];
    match rng.random(serial.as_mut_slice()) {
        Ok(()) => Ok(serial),
        Err(e) => Err(e),
    }
}

/// Certificate-related state, used for to-be-signed certificates and certificates.
pub struct CertificateState<I = NoIssuer, L = NoCertLifetime> {
    /// Name of the issuer of the certificate.
    issuer: I,

    /// When the certificate becomes valid; the time of building unless set.
    validity_notbefore: Option<UtcDateTime>,

    /// When the certificate expires.
    validity_lifetime: L,
}

impl<I, L> CertificateState<I, L> {
    pub closed spec fn spec_issuer(&self) -> I {
        self.issuer
    }

    /// The start of the validity period, where it was set.
    pub closed spec fn spec_not_before(&self) -> Option<(i64, u32)> {
        match self.validity_notbefore {
            Some(t) => Some(t@),
            None => None,
        }
    }

    pub closed spec fn spec_lifetime(&self) -> L {
        self.validity_lifetime
    }
}

/// The state of a certificate builder without lifetime.
#[derive(Clone, Copy, Debug)]
pub struct NoCertLifetime;

/// How long a certificate is valid: for a duration from its start, or until a point in time.
#[derive(Clone, Copy, Debug)]
pub enum CertLifetime {
    Duration(Duration),
    NotAfter(UtcDateTime),
}

/// The state of a certificate builder without issuer.
#[derive(Clone, Copy, Debug)]
pub struct NoIssuer;

/// The end of the validity period that starts at `not_before` and lasts `lifetime`, or `None`
/// where adding the duration leaves the representable range.
pub open spec fn spec_not_after(not_before: (i64, u32), lifetime: CertLifetime) -> Option<(i64, u32)> {
    match lifetime {
        CertLifetime::Duration(d) => chrono_checked_add(not_before.0, not_before.1, d@.0, d@.1),
        CertLifetime::NotAfter(t) => Some(t@),
    }
}

/// The end of the validity period, or why the period is refused.
pub open spec fn spec_validity(not_before: (i64, u32), lifetime: CertLifetime) -> Result<(i64, u32), ValidationErrorType> {
    match spec_not_after(not_before, lifetime) {
        None => Err(ValidationErrorType::DurationOverflow),
        Some(na) => if spec_after(not_before, na) {
            Err(ValidationErrorType::NotBeforeAfterNotAfter)
        } else {
            Ok(na)
        },
    }
}

/// The start of the validity period: the one set, or `now`.
pub open spec fn spec_effective_not_before(not_before: Option<(i64, u32)>, now: (i64, u32)) -> (i64, u32) {
    match not_before {
        Some(t) => t,
        None => now,
    }
}

/// `e` is the refusal `v` of the builder's configuration.
pub open spec fn is_validation_error(e: Error, v: ValidationErrorType) -> bool {
    e matches Error::Validation(x) && x == v
}

/// What building a to-be-signed certificate gives, once the serial number and the time are
/// fixed: the subject alternative name set twice is refused first, then a validity period
/// that overflows or ends before it starts. Otherwise the result, where the key material gives
/// its public key, is the DER encoding of the certificate with these fields.
pub open spec fn tbs_outcome(
    r: Result<Seq<u8>, Error>,
    serial: Seq<u8>,
    extensions: Seq<X509ExtensionView>,
    ca: bool,
    san: Option<X509ExtensionView>,
    issuer: Seq<NameEntryView>,
    not_before: Option<(i64, u32)>,
    lifetime: CertLifetime,
    now: (i64, u32),
    subject: Seq<NameEntryView>,
    signature_algorithm: Seq<u8>,
    spki: Seq<u8>,
    spki_exact: bool,
) -> bool {
    let nb = spec_effective_not_before(not_before, now);
    if spec_san_conflict(extensions, san) {
        r matches Err(e) && is_duplicate_extension_error(e, spec_subject_alt_name_oid())
    } else {
        match spec_validity(nb, lifetime) {
            Err(v) => r matches Err(e) && is_validation_error(e, v),
            Ok(na) => r matches Ok(t) ==> tbs_with_spki(
                t,
                serial,
                signature_algorithm,
                issuer,
                nb,
                na,
                subject,
                spki,
                spki_exact,
                spec_built_extensions(extensions, ca, san),
            ),
        }
    }
}

/// `t` is the DER encoding of the version 3 TBSCertificate with these fields and the public key
/// that the key material gave, which is `spki` where the key material gives what its model
/// says (`spki_exact`).
pub open spec fn tbs_with_spki(
    t: Seq<u8>,
    serial: Seq<u8>,
    signature_algorithm: Seq<u8>,
    issuer: Seq<NameEntryView>,
    not_before: (i64, u32),
    not_after: (i64, u32),
    subject: Seq<NameEntryView>,
    spki: Seq<u8>,
    spki_exact: bool,
    extensions: Seq<X509ExtensionView>,
) -> bool {
    exists|p: Seq<u8>|
        (spki_exact ==> p == spki)
            && t == #[trigger] tbs_certificate_der(serial, signature_algorithm, issuer, not_before, not_after, subject, p, extensions)
}

/// The configuration that building a to-be-signed certificate checks is accepted: no subject
/// alternative name set twice, and a validity period that neither overflows nor ends before it
/// starts.
pub open spec fn tbs_config_accepted(
    extensions: Seq<X509ExtensionView>,
    san: Option<X509ExtensionView>,
    not_before: Option<(i64, u32)>,
    lifetime: CertLifetime,
    now: (i64, u32),
) -> bool {
    &&& !spec_san_conflict(extensions, san)
    &&& spec_validity(spec_effective_not_before(not_before, now), lifetime) is Ok
}

/// The bytes of a result, with its error kept.
pub open spec fn result_bytes(r: Result<Vec<u8>, Error>) -> Result<Seq<u8>, Error> {
    match r {
        Ok(v) => Ok(v@),
        Err(e) => Err(e),
    }
}

/// The bytes of a result, with its error kept.
pub open spec fn tbs_result_bytes(r: Result<TbsCertificate, Error>) -> Result<Seq<u8>, Error> {
    match r {
        Ok(v) => Ok(v@),
        Err(e) => Err(e),
    }
}

/// The subject, the issuer and the extensions of the builder hold only object identifiers that
/// DER can encode; `pkix` panics on others, so building requires it.
pub open spec fn cert_encodable<CP, K>(b: Builder<CertificateState<Issuer, CertLifetime>, CP, K, Subject>) -> bool {
    &&& name_encodable(b.spec_subject()@)
    &&& name_encodable(b.spec_use_case_state().spec_issuer()@)
    &&& extensions_encodable(b.spec_extensions())
}

/// Encodes a to-be-signed certificate from its parts, checking them as the builder does.
fn encode_tbs_from<K: TbsKeys>(
    random: Vec<u8>,
    now: UtcDateTime,
    extensions: Vec<X509Extension>,
    ca: bool,
    san: Option<X509Extension>,
    state: CertificateState<Issuer, CertLifetime>,
    subject: &Subject,
    key_material: &mut K,
) -> (r: Result<Vec<u8>, Error>)
    requires
        random@.len() == SERIAL_BYTE_LENGTH,
        extensions_allowed(extensions_view(extensions@)),
        san_allowed(option_extension_view(san)),
        extensions_encodable(extensions_view(extensions@)),
        name_encodable(state.spec_issuer()@),
        name_encodable(subject@),
    ensures
        tbs_outcome(
            result_bytes(r),
            spec_serial(random@),
            extensions_view(extensions@),
            ca,
            option_extension_view(san),
            state.spec_issuer()@,
            state.spec_not_before(),
            state.spec_lifetime(),
            now@,
            subject@,
            (*old(key_material)).spec_signature_algorithm().spec_der(),
            (*old(key_material)).spec_spki(),
            (*old(key_material)).spec_spki_exact(),
        ),
        r is Ok ==> keys_distinct(extension_oids(spec_built_extensions(extensions_view(extensions@), ca, option_extension_view(san)))),
        tbs_config_accepted(extensions_view(extensions@), option_extension_view(san), state.spec_not_before(),
            state.spec_lifetime(), now@) && (*old(key_material)).spec_spki_infallible() ==> r is Ok,
        tbs_config_accepted(extensions_view(extensions@), option_extension_view(san), state.spec_not_before(),
            state.spec_lifetime(), now@) && (*old(key_material)).spec_spki_succeeds() ==> r is Ok,
        (*final(key_material)).spec_signer_signs() == (*old(key_material)).spec_signer_signs(),
        (*final(key_material)).spec_spki() == (*old(key_material)).spec_spki(),
        (*final(key_material)).spec_signature_algorithm() == (*old(key_material)).spec_signature_algorithm(),
        (*final(key_material)).spec_signer_public_key() == (*old(key_material)).spec_signer_public_key(),
{
    let serial = serial_from_random(random);
    let ghost exts_view = extensions_view(extensions@);
    let ghost san_view = option_extension_view(san);
    let built = match build_extensions(extensions, ca, san) {
        Ok(v) => v,
        Err(e) => { return Err(e); },
    };
    proof {
        lemma_built_extensions_distinct(exts_view, ca, san_view);
        lemma_built_extensions_encodable(exts_view, ca, san_view);
    }
    let validated = match state.build_state_at(now) {
        Ok(v) => v,
        Err(e) => { return Err(e); },
    };
    let signature_algorithm = key_material.signature_algorithm_der();
    let spki = key_material.spki();
    match assemble_tbs(
        serial.as_slice(),
        signature_algorithm.as_slice(),
        &validated.issuer,
        &validated.validity_notbefore,
        &validated.validity_notafter,
        subject,
        spki,
        built.as_slice(),
    ) {
        Ok(t) => Ok(t.into_vec()),
        Err(e) => Err(e),
    }
}

/// The to-be-signed certificate made of checked parts and of the outcome of asking the key
/// material for its public key: for the DER SubjectPublicKeyInfo, the version 3
/// TBSCertificate with these fields; for an error of the key, that error.
pub fn assemble_tbs(
    serial: &[u8],
    signature_algorithm: &[u8],
    issuer: &Issuer,
    not_before: &UtcDateTime,
    not_after: &UtcDateTime,
    subject: &Subject,
    spki: Result<Vec<u8>, Error>,
    extensions: &[X509Extension],
) -> (r: Result<TbsCertificate, Error>)
    requires
        name_encodable(issuer@),
        name_encodable(subject@),
        extensions_encodable(extensions_view(extensions@)),
    ensures
        match spki {
            Ok(p) => r matches Ok(t) && t@ == tbs_certificate_der(serial@, signature_algorithm@, issuer@,
                not_before@, not_after@, subject@, p@, extensions_view(extensions@)),
            Err(e) => r == Err::<TbsCertificate, Error>(e),
        },
{
    match spki {
        Ok(p) => Ok(TbsCertificate(encode_tbs_certificate(
            serial,
            signature_algorithm,
            issuer.name(),
            not_before,
            not_after,
            subject.name(),
            p.as_slice(),
            extensions,
        ))),
        Err(e) => Err(e),
    }
}

/// What checking the validity period of `state` gives when it starts at `now` unless a start
/// was set.
spec fn state_outcome(
    r: Result<ValidatedCertificateState, Error>,
    state: CertificateState<Issuer, CertLifetime>,
    now: (i64, u32),
) -> bool {
    let nb = spec_effective_not_before(state.spec_not_before(), now);
    match spec_validity(nb, state.spec_lifetime()) {
        Err(v) => r matches Err(e) && is_validation_error(e, v),
        Ok(na) => r matches Ok(s) && {
            &&& s.issuer@ == state.spec_issuer()@
            &&& s.validity_notbefore@ == nb
            &&& s.validity_notafter@ == na
        },
    }
}

/// The validity period, checked, with the issuer.
struct ValidatedCertificateState {
    issuer: Issuer,
    validity_notbefore: UtcDateTime,
    validity_notafter: UtcDateTime,
}

impl CertificateState<Issuer, CertLifetime> {
    /// Checks the validity period, taking `now` as its start where none was set.
    fn build_state_at(self, now: UtcDateTime) -> (r: Result<ValidatedCertificateState, Error>)
        ensures state_outcome(r, self, now@),
    {
        let validity_notbefore = match self.validity_notbefore {
            Some(t) => t,
            None => now,
        };
        let validity_notafter = match self.validity_lifetime {
            CertLifetime::Duration(duration) => match validity_notbefore.checked_add(&duration) {
                Some(t) => t,
                None => { return Err(Error::Validation(ValidationErrorType::DurationOverflow)); },
            },
            CertLifetime::NotAfter(date_time) => date_time,
        };
        if validity_notbefore.is_after(&validity_notafter) {
            return Err(Error::Validation(ValidationErrorType::NotBeforeAfterNotAfter));
        }
        Ok(ValidatedCertificateState { issuer: self.issuer, validity_notbefore, validity_notafter })
    }

    /// Checks the validity period, taking the current time as its start where none was set.
    fn build_state(self) -> (r: Result<ValidatedCertificateState, Error>)
        ensures exists|now: (i64, u32)| #[trigger] state_outcome(r, self, now),
    {
        let now = UtcDateTime::now();
        self.build_state_at(now)
    }
}

impl Default for Builder<CertificateState> {
    fn default() -> (r: Self)
        ensures
            r.spec_is_fresh(),
            r.spec_use_case_state().spec_not_before() is None,
    {
        Self::new()
    }
}

impl Builder<CertificateState> {
    pub fn new() -> (r: Self)
        ensures
            r.spec_is_fresh(),
            r.spec_use_case_state().spec_not_before() is None,
    {
        Builder::new_for_use_case(CertificateState {
            issuer: NoIssuer,
            validity_notbefore: None,
            validity_lifetime: NoCertLifetime,
        })
    }
}

} // verus!

verus! {

impl<I, L, CP, K, S> Builder<CertificateState<I, L>, CP, K, S> {
    /// Sets the start of the validity period.
    pub fn with_validity_notbefore(self, validity_notbefore: UtcDateTime) -> (r: Builder<CertificateState<I, L>, CP, K, S>)
        ensures
            same_but_state(r, self),
            r.spec_use_case_state().spec_not_before() == Some(validity_notbefore@),
            r.spec_use_case_state().spec_issuer() == self.spec_use_case_state().spec_issuer(),
            r.spec_use_case_state().spec_lifetime() == self.spec_use_case_state().spec_lifetime(),
    {
        let (b, mut state) = self.swap_use_case_state(());
        state.validity_notbefore = Some(validity_notbefore);
        b.swap_use_case_state(state).0
    }
}

impl<I, CP, K, S> Builder<CertificateState<I, NoCertLifetime>, CP, K, S> {
    /// Sets the lifetime to `validity_duration` from the start of the validity period.
    pub fn with_validity_duration(self, validity_duration: Duration) -> (r: Builder<CertificateState<I, CertLifetime>, CP, K, S>)
        ensures
            same_but_state(r, self),
            r.spec_use_case_state().spec_lifetime() == CertLifetime::Duration(validity_duration),
            r.spec_use_case_state().spec_not_before() == self.spec_use_case_state().spec_not_before(),
            r.spec_use_case_state().spec_issuer() == self.spec_use_case_state().spec_issuer(),
    {
        self.with_cert_lifetime(CertLifetime::Duration(validity_duration))
    }

    /// Sets the end of the validity period. Where it is taken relative to the current time, the
    /// start should be set too: the start defaults to the time of building, which may differ.
    pub fn with_validity_notafter(self, validity_notafter: UtcDateTime) -> (r: Builder<CertificateState<I, CertLifetime>, CP, K, S>)
        ensures
            same_but_state(r, self),
            r.spec_use_case_state().spec_lifetime() == CertLifetime::NotAfter(validity_notafter),
            r.spec_use_case_state().spec_not_before() == self.spec_use_case_state().spec_not_before(),
            r.spec_use_case_state().spec_issuer() == self.spec_use_case_state().spec_issuer(),
    {
        self.with_cert_lifetime(CertLifetime::NotAfter(validity_notafter))
    }

    fn with_cert_lifetime(self, cert_lifetime: CertLifetime) -> (r: Builder<CertificateState<I, CertLifetime>, CP, K, S>)
        ensures
            same_but_state(r, self),
            r.spec_use_case_state().spec_lifetime() == cert_lifetime,
            r.spec_use_case_state().spec_not_before() == self.spec_use_case_state().spec_not_before(),
            r.spec_use_case_state().spec_issuer() == self.spec_use_case_state().spec_issuer(),
    {
        let (b, cert) = self.swap_use_case_state(());
        let state = CertificateState {
            issuer: cert.issuer,
            validity_notbefore: cert.validity_notbefore,
            validity_lifetime: cert_lifetime,
        };
        b.swap_use_case_state(state).0
    }
}

impl<L, CP, K, S> Builder<CertificateState<NoIssuer, L>, CP, K, S> {
    /// Sets the issuer.
    pub fn with_issuer(self, issuer: Issuer) -> (r: Builder<CertificateState<Issuer, L>, CP, K, S>)
        ensures
            same_but_state(r, self),
            r.spec_use_case_state().spec_issuer() == issuer,
            r.spec_use_case_state().spec_not_before() == self.spec_use_case_state().spec_not_before(),
            r.spec_use_case_state().spec_lifetime() == self.spec_use_case_state().spec_lifetime(),
    {
        let (b, cert) = self.swap_use_case_state(());
        let state = CertificateState {
            issuer,
            validity_notbefore: cert.validity_notbefore,
            validity_lifetime: cert.validity_lifetime,
        };
        b.swap_use_case_state(state).0
    }
}

impl<L, CP, K> Builder<CertificateState<NoIssuer, L>, CP, K, Subject> {
    /// Names the subject as the issuer, as a self-signed certificate does.
    pub fn with_subject_as_issuer(self) -> (r: Builder<CertificateState<Issuer, L>, CP, K, Subject>)
        ensures
            same_but_state(r, self),
            r.spec_use_case_state().spec_issuer()@ == self.spec_subject()@,
            r.spec_use_case_state().spec_not_before() == self.spec_use_case_state().spec_not_before(),
            r.spec_use_case_state().spec_lifetime() == self.spec_use_case_state().spec_lifetime(),
    {
        let issuer = Issuer::from_subject(self.subject_ref().duplicate());
        self.with_issuer(issuer)
    }
}

impl<I, CP, L, S> Builder<CertificateState<I, L>, CP, NoKeyMaterial, S> {
    /// Sets the public key that the certificate names, and the signature algorithm that it lists
    /// and that should sign it.
    pub fn with_spki<'a, A>(self, spki: &'a [u8], signature_algorithm: A) -> (r: Builder<CertificateState<I, L>, CP, SpkiKeyMaterial<'a, A>, S>)
        ensures
            same_but_key_and_state(r, self),
            r.spec_use_case_state() == self.spec_use_case_state(),
            r.spec_key_material().spec_spki_bytes() == spki@,
            r.spec_key_material().spec_algorithm() == signature_algorithm,
    {
        self.with_key_material(SpkiKeyMaterial::new(spki, signature_algorithm))
    }
}

impl<L, CP: CryptoProvider> Builder<CertificateState<NoIssuer, L>, CP, NoKeyMaterial, Subject> {
    /// Self-signs with `signing_key` under `signature_algorithm`, naming the subject as the
    /// issuer. Refused where the algorithm does not go with the key.
    pub fn with_self_signing_key<'k, A: SigningAdapter<CP::Pk>>(
        self,
        signing_key: &'k mut CP::Pk,
        signature_algorithm: A,
    ) -> (r: Result<Builder<CertificateState<Issuer, L>, CP, SelfSigningKeyMaterial<'k, CP::Pk, A>, Subject>, Error>)
        ensures
            r matches Err(e) ==> e matches Error::Validation(ValidationErrorType::PkAndSigAlgMismatch),
            <CP::Pk as PkProvider>::obeys_key_spec() && A::obeys_adapter_spec()
                && <CP::Pk as PkProvider>::SignatureAlgorithm::obeys_eq_spec() ==> (r is Ok <==> old(signing_key).spec_signature_algorithm().eq_spec(&A::spec_signature_algorithm())),
            r matches Ok(b) ==> {
                &&& same_but_key_and_state(b, self)
                &&& b.spec_use_case_state().spec_issuer()@ == self.spec_subject()@
                &&& b.spec_use_case_state().spec_not_before() == self.spec_use_case_state().spec_not_before()
                &&& b.spec_use_case_state().spec_lifetime() == self.spec_use_case_state().spec_lifetime()
                &&& b.spec_key_material().spec_key() == *old(signing_key)
                &&& b.spec_key_material().spec_algorithm() == signature_algorithm
            },
    {
        match A::allows_pk(signing_key) {
            Ok(()) => {},
            Err(e) => { return Err(e); },
        }
        Ok(self.with_subject_as_issuer().with_key_material(SelfSigningKeyMaterial::new(signing_key, signature_algorithm)))
    }

    /// Self-signs with a key that building generates with the default parameters of
    /// `signature_algorithm`, naming the subject as the issuer.
    pub fn with_generated_self_signing_key<A>(self, signature_algorithm: A) -> (r: Builder<CertificateState<Issuer, L>, CP, DefaultSelfSigningKeyMaterial<A>, Subject>)
        ensures
            same_but_key_and_state(r, self),
            r.spec_use_case_state().spec_issuer()@ == self.spec_subject()@,
            r.spec_use_case_state().spec_not_before() == self.spec_use_case_state().spec_not_before(),
            r.spec_use_case_state().spec_lifetime() == self.spec_use_case_state().spec_lifetime(),
            r.spec_key_material().spec_algorithm() == signature_algorithm,
    {
        self.with_subject_as_issuer().with_key_material(DefaultSelfSigningKeyMaterial::new(signature_algorithm))
    }
}

impl<'a, I, L, CP: CryptoProvider, A, S> Builder<CertificateState<I, L>, CP, SpkiKeyMaterial<'a, A>, S> {
    /// Signs with `signing_key`. Refused where the signature algorithm does not go with the key.
    pub fn with_signing_key<'b>(self, signing_key: &'b mut CP::Pk) -> (r: Result<Builder<CertificateState<I, L>, CP, CertificateKeyMaterial<'a, 'b, A, CP::Pk>, S>, Error>)
        where A: SigningAdapter<CP::Pk>
        ensures
            r matches Err(e) ==> e matches Error::Validation(ValidationErrorType::PkAndSigAlgMismatch),
            <CP::Pk as PkProvider>::obeys_key_spec() && A::obeys_adapter_spec()
                && <CP::Pk as PkProvider>::SignatureAlgorithm::obeys_eq_spec() ==> (r is Ok <==> old(signing_key).spec_signature_algorithm().eq_spec(&A::spec_signature_algorithm())),
            r matches Ok(b) ==> {
                &&& same_but_key_and_state(b, self)
                &&& b.spec_use_case_state() == self.spec_use_case_state()
                &&& b.spec_key_material().spec_tbs_key_material() == self.spec_key_material()
                &&& b.spec_key_material().spec_key() == *old(signing_key)
            },
    {
        match A::allows_pk(signing_key) {
            Ok(()) => {},
            Err(e) => { return Err(e); },
        }
        let (builder, tbs_key_material) = self.swap_key_material(NoKeyMaterial);
        Ok(builder.with_key_material(CertificateKeyMaterial::new(tbs_key_material, signing_key)))
    }
}

} // verus!

verus! {

/// What building a to-be-signed certificate with builder `b` gives, once the random bytes of
/// the serial number and the time are fixed.
pub open spec fn spec_builder_tbs<CP, K: TbsKeys>(
    b: Builder<CertificateState<Issuer, CertLifetime>, CP, K, Subject>,
    r: Result<Seq<u8>, Error>,
    random: Seq<u8>,
    now: (i64, u32),
) -> bool {
    tbs_outcome(
        r,
        spec_serial(random),
        b.spec_extensions(),
        b.spec_ca(),
        b.spec_san(),
        b.spec_use_case_state().spec_issuer()@,
        b.spec_use_case_state().spec_not_before(),
        b.spec_use_case_state().spec_lifetime(),
        now,
        b.spec_subject()@,
        b.spec_key_material().spec_signature_algorithm().spec_der(),
        b.spec_key_material().spec_spki(),
        b.spec_key_material().spec_spki_exact(),
    )
}

/// `cert` is a certificate that builder `b` makes from the random bytes `random` at time `now`:
/// the to-be-signed certificate `tbs` that `b` builds from them, the signature algorithm of the
/// key material, and a signature `signature` of `tbs`, which verifies under the signing key where
/// that key keeps its model (`obeys_key_spec`).
pub open spec fn spec_builder_cert<CP, K: CertificateKeys>(
    b: Builder<CertificateState<Issuer, CertLifetime>, CP, K, Subject>,
    cert: Seq<u8>,
    random: Seq<u8>,
    now: (i64, u32),
    tbs: Seq<u8>,
    signature: Seq<u8>,
) -> bool {
    &&& random.len() == SERIAL_BYTE_LENGTH
    &&& spec_builder_tbs(b, Ok(tbs), random, now)
    &&& cert == certificate_der(tbs, b.spec_key_material().spec_signature_algorithm().spec_der(), signature)
    &&& (K::Pk::obeys_key_spec() ==> K::Pk::spec_signature_verifies(b.spec_key_material().spec_signer_public_key(), tbs, signature))
}

/// `tbs` is a to-be-signed certificate that builder `b` makes from the random bytes `random`,
/// at some time.
pub open spec fn spec_tbs_built_from<CP, K: TbsKeys>(
    b: Builder<CertificateState<Issuer, CertLifetime>, CP, K, Subject>,
    tbs: Seq<u8>,
    random: Seq<u8>,
) -> bool {
    exists|now: (i64, u32)| #[trigger] spec_builder_tbs(b, Ok(tbs), random, now)
}

/// `cert` is a certificate that builder `b` makes from the random bytes `random`, for some time
/// and signature.
pub open spec fn spec_cert_built_from<CP, K: CertificateKeys>(
    b: Builder<CertificateState<Issuer, CertLifetime>, CP, K, Subject>,
    cert: Seq<u8>,
    random: Seq<u8>,
) -> bool {
    exists|now: (i64, u32), tbs: Seq<u8>, signature: Seq<u8>| #[trigger] spec_builder_cert(b, cert, random, now, tbs, signature)
}

/// `tbs` is a to-be-signed certificate that builder `b` makes for some random bytes and time.
pub open spec fn spec_tbs_built_by<CP, K: TbsKeys>(b: Builder<CertificateState<Issuer, CertLifetime>, CP, K, Subject>, tbs: Seq<u8>) -> bool {
    exists|random: Seq<u8>, now: (i64, u32)|
        random.len() == SERIAL_BYTE_LENGTH && #[trigger] spec_builder_tbs(b, Ok(tbs), random, now)
}

/// `cert` is a certificate that builder `b` makes for some random bytes, time and signature.
pub open spec fn spec_cert_built_by<CP, K: CertificateKeys>(b: Builder<CertificateState<Issuer, CertLifetime>, CP, K, Subject>, cert: Seq<u8>) -> bool {
    exists|random: Seq<u8>, now: (i64, u32), tbs: Seq<u8>, signature: Seq<u8>|
        #[trigger] spec_builder_cert(b, cert, random, now, tbs, signature)
}

/// The certificate made of the DER to-be-signed certificate `tbs`, the DER signature algorithm
/// and the outcome of signing: for a signature, the certificate that carries it; for an error
/// of the signing key, that error.
pub fn assemble_certificate(tbs: &[u8], signature_algorithm: &[u8], signature: Result<Vec<u8>, Error>) -> (r: Result<Certificate, Error>)
    ensures
        match signature {
            Ok(s) => r matches Ok(c) && c@ == certificate_der(tbs@, signature_algorithm@, s@),
            Err(e) => r == Err::<Certificate, Error>(e),
        },
{
    match signature {
        Ok(s) => Ok(Certificate(encode_certificate(tbs, signature_algorithm, s.as_slice()))),
        Err(e) => Err(e),
    }
}

/// Builds and signs a certificate from its parts.
fn sign_certificate<K: CertificateKeys>(
    random: Vec<u8>,
    now: UtcDateTime,
    extensions: Vec<X509Extension>,
    ca: bool,
    san: Option<X509Extension>,
    state: CertificateState<Issuer, CertLifetime>,
    subject: &Subject,
    key_material: &mut K,
) -> (r: Result<Vec<u8>, Error>)
    where K::SigAlgorithm: SigningAdapter<K::Pk>
    requires
        random@.len() == SERIAL_BYTE_LENGTH,
        extensions_allowed(extensions_view(extensions@)),
        san_allowed(option_extension_view(san)),
        extensions_encodable(extensions_view(extensions@)),
        name_encodable(state.spec_issuer()@),
        name_encodable(subject@),
    ensures
        r matches Ok(c) ==> exists|tbs: Seq<u8>, signature: Seq<u8>| {
            &&& tbs_outcome(
                Ok(tbs),
                spec_serial(random@),
                extensions_view(extensions@),
                ca,
                option_extension_view(san),
                state.spec_issuer()@,
                state.spec_not_before(),
                state.spec_lifetime(),
                now@,
                subject@,
                (*old(key_material)).spec_signature_algorithm().spec_der(),
                (*old(key_material)).spec_spki(),
                (*old(key_material)).spec_spki_exact(),
            )
            &&& c@ == #[trigger] certificate_der(tbs, (*old(key_material)).spec_signature_algorithm().spec_der(), signature)
            &&& (K::Pk::obeys_key_spec() ==> K::Pk::spec_signature_verifies((*old(key_material)).spec_signer_public_key(), tbs, signature))
        },
        refused_as_checked(result_bytes(r), extensions_view(extensions@), option_extension_view(san),
            state.spec_not_before(), state.spec_lifetime(), now@),
        (*final(key_material)).spec_signer_public_key() == (*old(key_material)).spec_signer_public_key(),
        (*final(key_material)).spec_signature_algorithm() == (*old(key_material)).spec_signature_algorithm(),
        tbs_config_accepted(extensions_view(extensions@), option_extension_view(san), state.spec_not_before(),
            state.spec_lifetime(), now@) && (*old(key_material)).spec_spki_succeeds()
            && (*old(key_material)).spec_signer_signs()
            && <K::SigAlgorithm as SigningAdapter<K::Pk>>::obeys_adapter_spec()
            && <K::SigAlgorithm as SigningAdapter<K::Pk>>::spec_meta_given() ==> r is Ok,
{
    let tbs = match encode_tbs_from(random, now, extensions, ca, san, state, subject, key_material) {
        Ok(v) => v,
        Err(e) => { return Err(e); },
    };
    let sig = sign_with::<K::Pk, K::SigAlgorithm>(key_material.private_key(), tbs.as_slice());
    let signature_algorithm = key_material.signature_algorithm_der();
    match assemble_certificate(tbs.as_slice(), signature_algorithm.as_slice(), sig) {
        Ok(c) => Ok(c.into_vec()),
        Err(e) => Err(e),
    }
}

impl<CP, K: TbsKeys> Builder<CertificateState<Issuer, CertLifetime>, CP, K, Subject> {
    /// Builds the DER-encoded to-be-signed certificate with the serial number made from the 20
    /// bytes `random`, taking `now` as the start of the validity period where none was set.
    pub fn build_tbs_with(self, random: Vec<u8>, now: UtcDateTime) -> (r: Result<TbsCertificate, Error>)
        requires
            random@.len() == SERIAL_BYTE_LENGTH,
            cert_encodable(self),
        ensures
            spec_builder_tbs(self, tbs_result_bytes(r), random@, now@),
            tbs_config_accepted(self.spec_extensions(), self.spec_san(), self.spec_use_case_state().spec_not_before(),
                self.spec_use_case_state().spec_lifetime(), now@) && self.spec_key_material().spec_spki_infallible() ==> r is Ok,
            tbs_config_accepted(self.spec_extensions(), self.spec_san(), self.spec_use_case_state().spec_not_before(),
                self.spec_use_case_state().spec_lifetime(), now@) && self.spec_key_material().spec_spki_succeeds() ==> r is Ok,
            r is Ok ==> keys_distinct(extension_oids(spec_built_extensions(self.spec_extensions(), self.spec_ca(), self.spec_san()))),
    {
        let (_crypto_provider, subject, extensions, san, ca, key_material, state) = self.into_parts();
        let mut key_material = key_material;
        match encode_tbs_from(random, now, extensions, ca, san, state, &subject, &mut key_material) {
            Ok(v) => Ok(TbsCertificate(v)),
            Err(e) => Err(e),
        }
    }
}

impl<CP: CryptoProvider, K: TbsKeys> Builder<CertificateState<Issuer, CertLifetime>, CP, K, Subject> {
    /// Builds the DER-encoded to-be-signed certificate, with a random serial number, and with
    /// the current time as the start of the validity period where none was set.
    pub fn build_tbs(self) -> (r: Result<TbsCertificate, Error>)
        requires cert_encodable(self),
        ensures
            r matches Ok(t) ==> spec_tbs_built_by(self, t@),
            r matches Ok(t) ==> (rng_models_kept::<CP>() ==>
                spec_tbs_built_from(self, t@, next_serial_random(self.spec_crypto_provider()))),
            rng_gives(self.spec_crypto_provider())
                && tbs_config_accepted_from_start(self.spec_extensions(), self.spec_san(),
                    self.spec_use_case_state().spec_not_before(), self.spec_use_case_state().spec_lifetime())
                && self.spec_key_material().spec_spki_succeeds() ==> r is Ok,
            spec_san_conflict(self.spec_extensions(), self.spec_san()) ==> r is Err,
    {
        let (b, mut crypto_provider) = self.swap_crypto_provider(NoCryptoProvider);
        let random = match random_serial_bytes(crypto_provider.rng()) {
            Ok(v) => v,
            Err(e) => { return Err(e); },
        };
        let now = UtcDateTime::now();
        let r = b.build_tbs_with(random, now);
        proof {
            if r is Ok {
                assert(spec_builder_tbs(self, Ok(r->Ok_0@), random@, now@));
                if rng_models_kept::<CP>() {
                    assert(random@ == next_serial_random(self.spec_crypto_provider()));
                }
            }
        }
        r
    }
}

/// The refusals that building checks, with their errors: a subject alternative name set twice,
/// then a validity period that overflows or ends before it starts. Other results are left open.
pub open spec fn refused_as_checked(
    r: Result<Seq<u8>, Error>,
    extensions: Seq<X509ExtensionView>,
    san: Option<X509ExtensionView>,
    not_before: Option<(i64, u32)>,
    lifetime: CertLifetime,
    now: (i64, u32),
) -> bool {
    if spec_san_conflict(extensions, san) {
        r matches Err(e) && is_duplicate_extension_error(e, spec_subject_alt_name_oid())
    } else {
        match spec_validity(spec_effective_not_before(not_before, now), lifetime) {
            Err(v) => r matches Err(e) && is_validation_error(e, v),
            Ok(_) => true,
        }
    }
}

/// The bytes of a result, with its error kept.
pub open spec fn cert_result_bytes(r: Result<Certificate, Error>) -> Result<Seq<u8>, Error> {
    match r {
        Ok(v) => Ok(v@),
        Err(e) => Err(e),
    }
}

impl<CP, K: CertificateKeys> Builder<CertificateState<Issuer, CertLifetime>, CP, K, Subject>
    where K::SigAlgorithm: SigningAdapter<K::Pk>
{
    /// Builds the DER-encoded certificate with the serial number made from the 20 bytes
    /// `random`, taking `now` as the start of the validity period where none was set: the
    /// to-be-signed certificate as `build_tbs_with` builds it, signed with the private key of
    /// the key material.
    pub fn build_cert_with(self, random: Vec<u8>, now: UtcDateTime) -> (r: Result<Certificate, Error>)
        requires
            random@.len() == SERIAL_BYTE_LENGTH,
            cert_encodable(self),
        ensures
            r matches Ok(c) ==> exists|tbs: Seq<u8>, signature: Seq<u8>|
                #[trigger] spec_builder_cert(self, c@, random@, now@, tbs, signature),
            refused_as_checked(
                cert_result_bytes(r),
                self.spec_extensions(),
                self.spec_san(),
                self.spec_use_case_state().spec_not_before(),
                self.spec_use_case_state().spec_lifetime(),
                now@,
            ),
            tbs_config_accepted(self.spec_extensions(), self.spec_san(), self.spec_use_case_state().spec_not_before(),
                self.spec_use_case_state().spec_lifetime(), now@)
                && self.spec_key_material().spec_spki_succeeds() && self.spec_key_material().spec_signer_signs()
                && <K::SigAlgorithm as SigningAdapter<K::Pk>>::obeys_adapter_spec()
                && <K::SigAlgorithm as SigningAdapter<K::Pk>>::spec_meta_given() ==> r is Ok,
    {
        let (_crypto_provider, subject, extensions, san, ca, key_material, state) = self.into_parts();
        let mut key_material = key_material;
        match sign_certificate(random, now, extensions, ca, san, state, &subject, &mut key_material) {
            Ok(v) => {
                let c = Certificate(v);
                proof {
                    let w = choose|tbs: Seq<u8>, signature: Seq<u8>| tbs_outcome(
                        Ok(tbs),
                        spec_serial(random@),
                        self.spec_extensions(),
                        self.spec_ca(),
                        self.spec_san(),
                        self.spec_use_case_state().spec_issuer()@,
                        self.spec_use_case_state().spec_not_before(),
                        self.spec_use_case_state().spec_lifetime(),
                        now@,
                        self.spec_subject()@,
                        self.spec_key_material().spec_signature_algorithm().spec_der(),
                        self.spec_key_material().spec_spki(),
                        self.spec_key_material().spec_spki_exact(),
                    ) && v@ == #[trigger] certificate_der(tbs, self.spec_key_material().spec_signature_algorithm().spec_der(), signature)
                      && (K::Pk::obeys_key_spec() ==> K::Pk::spec_signature_verifies(self.spec_key_material().spec_signer_public_key(), tbs, signature));
                    assert(spec_builder_cert(self, c@, random@, now@, w.0, w.1));
                }
                Ok(c)
            },
            Err(e) => Err(e),
        }
    }
}

impl<CP: CryptoProvider, K: CertificateKeys<Pk = CP::Pk>> Builder<CertificateState<Issuer, CertLifetime>, CP, K, Subject>
    where K::SigAlgorithm: SigningAdapter<CP::Pk>
{
    /// Builds the DER-encoded certificate: the to-be-signed certificate as `build_tbs` builds
    /// it, signed with the private key of the key material.
    pub fn build_cert(self) -> (r: Result<Certificate, Error>)
        requires cert_encodable(self),
        ensures
            r matches Ok(c) ==> spec_cert_built_by(self, c@),
            r matches Ok(c) ==> (rng_models_kept::<CP>() ==>
                spec_cert_built_from(self, c@, next_serial_random(self.spec_crypto_provider()))),
            rng_gives(self.spec_crypto_provider())
                && tbs_config_accepted_from_start(self.spec_extensions(), self.spec_san(),
                    self.spec_use_case_state().spec_not_before(), self.spec_use_case_state().spec_lifetime())
                && self.spec_key_material().spec_spki_succeeds() && self.spec_key_material().spec_signer_signs()
                && <K::SigAlgorithm as SigningAdapter<CP::Pk>>::obeys_adapter_spec()
                && <K::SigAlgorithm as SigningAdapter<CP::Pk>>::spec_meta_given() ==> r is Ok,
            spec_san_conflict(self.spec_extensions(), self.spec_san()) ==> r is Err,
    {
        let (b, mut crypto_provider) = self.swap_crypto_provider(NoCryptoProvider);
        let random = match random_serial_bytes(crypto_provider.rng()) {
            Ok(v) => v,
            Err(e) => { return Err(e); },
        };
        let now = UtcDateTime::now();
        let r = b.build_cert_with(random, now);
        proof {
            if r is Ok {
                let c = r->Ok_0;
                let w = choose|tbs: Seq<u8>, signature: Seq<u8>| #[trigger] spec_builder_cert(b, c@, random@, now@, tbs, signature);
                assert(spec_builder_cert(self, c@, random@, now@, w.0, w.1));
                if rng_models_kept::<CP>() {
                    assert(random@ == next_serial_random(self.spec_crypto_provider()));
                }
            }
        }
        r
    }
}

} // verus!

verus! {

/// `cert` is the certificate that a builder with these parts makes from the random bytes
/// `random` at time `now`: the to-be-signed certificate `tbs`, naming the public key `spki`,
/// and its signature `signature`, which verifies under `signer_public_key` where the key keeps
/// its model; `spki` is the public key named where `spki_exact` holds.
pub open spec fn spec_cert_with_key_at<PK: PkProvider>(
    cert: Seq<u8>,
    extensions: Seq<X509ExtensionView>,
    ca: bool,
    san: Option<X509ExtensionView>,
    state: CertificateState<Issuer, CertLifetime>,
    subject: Seq<NameEntryView>,
    signature_algorithm: Seq<u8>,
    spki: Seq<u8>,
    spki_exact: bool,
    signer_public_key: Seq<u8>,
    random: Seq<u8>,
    now: (i64, u32),
    tbs: Seq<u8>,
    signature: Seq<u8>,
) -> bool {
    &&& random.len() == SERIAL_BYTE_LENGTH
    &&& tbs_outcome(
        Ok(tbs),
        spec_serial(random),
        extensions,
        ca,
        san,
        state.spec_issuer()@,
        state.spec_not_before(),
        state.spec_lifetime(),
        now,
        subject,
        signature_algorithm,
        spki,
        spki_exact,
    )
    &&& cert == certificate_der(tbs, signature_algorithm, signature)
    &&& (PK::obeys_key_spec() ==> PK::spec_signature_verifies(signer_public_key, tbs, signature))
}

/// `cert` is a certificate that a builder with these parts makes for some random bytes, time
/// and signature, naming the public key `spki` and signed by the key whose public key is
/// `signer_public_key`.
pub open spec fn spec_cert_with_key<PK: PkProvider>(
    cert: Seq<u8>,
    extensions: Seq<X509ExtensionView>,
    ca: bool,
    san: Option<X509ExtensionView>,
    state: CertificateState<Issuer, CertLifetime>,
    subject: Seq<NameEntryView>,
    signature_algorithm: Seq<u8>,
    spki: Seq<u8>,
    spki_exact: bool,
    signer_public_key: Seq<u8>,
) -> bool {
    exists|random: Seq<u8>, now: (i64, u32), tbs: Seq<u8>, signature: Seq<u8>|
        #[trigger] spec_cert_with_key_at::<PK>(cert, extensions, ca, san, state, subject, signature_algorithm, spki,
            spki_exact, signer_public_key, random, now, tbs, signature)
}

/// `cert` is a certificate that a builder with these parts makes from the random bytes
/// `random`, for some time and signature.
pub open spec fn spec_cert_with_key_from<PK: PkProvider>(
    cert: Seq<u8>,
    extensions: Seq<X509ExtensionView>,
    ca: bool,
    san: Option<X509ExtensionView>,
    state: CertificateState<Issuer, CertLifetime>,
    subject: Seq<NameEntryView>,
    signature_algorithm: Seq<u8>,
    spki: Seq<u8>,
    spki_exact: bool,
    signer_public_key: Seq<u8>,
    random: Seq<u8>,
) -> bool {
    exists|now: (i64, u32), tbs: Seq<u8>, signature: Seq<u8>|
        #[trigger] spec_cert_with_key_at::<PK>(cert, extensions, ca, san, state, subject, signature_algorithm, spki,
            spki_exact, signer_public_key, random, now, tbs, signature)
}

/// Builds a certificate that names the public key `spki` and signs it with `signing_key`.
fn sign_certificate_with_key<PK: PkProvider, A: SigningAdapter<PK> + Clone>(
    random: Vec<u8>,
    now: UtcDateTime,
    extensions: Vec<X509Extension>,
    ca: bool,
    san: Option<X509Extension>,
    state: CertificateState<Issuer, CertLifetime>,
    subject: &Subject,
    spki: &[u8],
    algorithm: A,
    signing_key: &mut PK,
) -> (r: Result<Vec<u8>, Error>)
    requires
        random@.len() == SERIAL_BYTE_LENGTH,
        extensions_allowed(extensions_view(extensions@)),
        san_allowed(option_extension_view(san)),
        extensions_encodable(extensions_view(extensions@)),
        name_encodable(state.spec_issuer()@),
        name_encodable(subject@),
    ensures
        r matches Ok(c) ==> spec_cert_with_key::<PK>(
            c@,
            extensions_view(extensions@),
            ca,
            option_extension_view(san),
            state,
            subject@,
            algorithm.spec_der(),
            spki@,
            true,
            old(signing_key).spec_public_key_der(),
        ),
        r matches Ok(c) ==> spec_cert_with_key_from::<PK>(
            c@,
            extensions_view(extensions@),
            ca,
            option_extension_view(san),
            state,
            subject@,
            algorithm.spec_der(),
            spki@,
            true,
            old(signing_key).spec_public_key_der(),
            random@,
        ),
        refused_as_checked(result_bytes(r), extensions_view(extensions@), option_extension_view(san),
            state.spec_not_before(), state.spec_lifetime(), now@),
        final(signing_key).spec_public_key_der() == old(signing_key).spec_public_key_der(),
        final(signing_key).spec_signature_algorithm() == old(signing_key).spec_signature_algorithm(),
        tbs_config_accepted(extensions_view(extensions@), option_extension_view(san), state.spec_not_before(),
            state.spec_lifetime(), now@) && signs_with::<PK, A>(*old(signing_key)) ==> r is Ok,
{
    let ghost exts = extensions_view(extensions@);
    let ghost san_view = option_extension_view(san);
    let mut key_material = SpkiKeyMaterial::new(spki, algorithm);
    let tbs = match encode_tbs_from(random, now, extensions, ca, san, state, subject, &mut key_material) {
        Ok(v) => v,
        Err(e) => { return Err(e); },
    };
    let sig = sign_with::<PK, A>(signing_key, tbs.as_slice());
    let ghost sig_result = sig;
    let signature_algorithm = key_material.signature_algorithm_der();
    match assemble_certificate(tbs.as_slice(), signature_algorithm.as_slice(), sig) {
        Ok(cert) => {
            assert(spec_cert_with_key_at::<PK>(cert@, exts, ca, san_view, state, subject@, algorithm.spec_der(), spki@,
                true, old(signing_key).spec_public_key_der(), random@, now@, tbs@, sig_result->Ok_0@));
            Ok(cert.into_vec())
        },
        Err(e) => Err(e),
    }
}

impl<CP: CryptoProvider, A> Builder<CertificateState<Issuer, CertLifetime>, CP, DefaultSelfSigningKeyMaterial<A>, Subject>
    where A: Clone + AlgorithmIdentifier + DefaultPkParameters<CP::Pk, CP::Rng> + SigningAdapter<CP::Pk>
{
    /// Generates a key with the default parameters of the signature algorithm, and builds the
    /// certificate self-signed with it. Returns the certificate and the key: the certificate
    /// names the key's public key and carries a signature that verifies under it, where the key
    /// keeps its model. What follows the generation is `build_cert_with_generated_key`.
    pub fn build_cert_generate_key(self) -> (r: Result<(Certificate, CP::Pk), Error>)
        requires cert_encodable(self),
        ensures
            r matches Ok((c, k)) ==> spec_cert_with_key::<CP::Pk>(
                c@,
                self.spec_extensions(),
                self.spec_ca(),
                self.spec_san(),
                self.spec_use_case_state(),
                self.spec_subject()@,
                self.spec_key_material().spec_algorithm().spec_der(),
                k.spec_public_key_der(),
                <CP::Pk as PkProvider>::obeys_key_spec(),
                k.spec_public_key_der(),
            ),
            spec_san_conflict(self.spec_extensions(), self.spec_san()) ==> r is Err,
    {
        let (b, mut crypto_provider) = self.swap_crypto_provider(NoCryptoProvider);
        let generated = A::generate_pk(crypto_provider.rng());
        let (b, _) = b.swap_crypto_provider(crypto_provider);
        b.build_cert_with_generated_key(generated)
    }
}

impl<CP: CryptoProvider, A> Builder<CertificateState<Issuer, CertLifetime>, CP, DefaultSelfSigningKeyMaterial<A>, Subject>
    where A: Clone + AlgorithmIdentifier + SigningAdapter<CP::Pk>
{
    /// Builds the certificate self-signed with the key that generation gave, and returns it with
    /// the key; passes on the error of generation.
    pub fn build_cert_with_generated_key(self, generated: Result<CP::Pk, Error>) -> (r: Result<(Certificate, CP::Pk), Error>)
        requires cert_encodable(self),
        ensures
            generated matches Err(e) ==> r == Err::<(Certificate, CP::Pk), Error>(e),
            r matches Ok((c, k)) ==> {
                &&& generated matches Ok(g) && k.spec_public_key_der() == g.spec_public_key_der()
                &&& spec_cert_with_key::<CP::Pk>(
                    c@,
                    self.spec_extensions(),
                    self.spec_ca(),
                    self.spec_san(),
                    self.spec_use_case_state(),
                    self.spec_subject()@,
                    self.spec_key_material().spec_algorithm().spec_der(),
                    k.spec_public_key_der(),
                    <CP::Pk as PkProvider>::obeys_key_spec(),
                    k.spec_public_key_der(),
                )
            },
            generated matches Ok(g) ==> (rng_gives(self.spec_crypto_provider())
                && tbs_config_accepted_from_start(self.spec_extensions(), self.spec_san(),
                    self.spec_use_case_state().spec_not_before(), self.spec_use_case_state().spec_lifetime())
                && g.spec_exports() && signs_with::<CP::Pk, A>(g) ==> r is Ok),
            r matches Ok((c, k)) ==> (rng_models_kept::<CP>() ==> spec_cert_with_key_from::<CP::Pk>(
                c@,
                self.spec_extensions(),
                self.spec_ca(),
                self.spec_san(),
                self.spec_use_case_state(),
                self.spec_subject()@,
                self.spec_key_material().spec_algorithm().spec_der(),
                k.spec_public_key_der(),
                <CP::Pk as PkProvider>::obeys_key_spec(),
                k.spec_public_key_der(),
                next_serial_random(self.spec_crypto_provider()),
            )),
            spec_san_conflict(self.spec_extensions(), self.spec_san()) ==> r is Err,
    {
        let (mut crypto_provider, subject, extensions, san, ca, key_material, state) = self.into_parts();
        let signing_key = match generated {
            Ok(k) => k,
            Err(e) => { return Err(e); },
        };
        let random = match random_serial_bytes(crypto_provider.rng()) {
            Ok(v) => v,
            Err(e) => { return Err(e); },
        };
        let now = UtcDateTime::now();
        let algorithm = key_material.into_algorithm();
        let ghost key0 = signing_key;
        let ghost exts = extensions_view(extensions@);
        let ghost san_view = option_extension_view(san);
        let mut material = OwnedSigningKeyMaterial { signing_key, signature_algorithm: algorithm };
        let signed = sign_certificate(random, now, extensions, ca, san, state, &subject, &mut material);
        let OwnedSigningKeyMaterial { signing_key, signature_algorithm: _ } = material;
        match signed {
            Ok(v) => {
                let c = Certificate(v);
                proof {
                    assert(signing_key.spec_public_key_der() == key0.spec_public_key_der());
                    let w = choose|tbs: Seq<u8>, signature: Seq<u8>| {
                        &&& tbs_outcome(Ok(tbs), spec_serial(random@), exts, ca, san_view, state.spec_issuer()@,
                            state.spec_not_before(), state.spec_lifetime(), now@, subject@, algorithm.spec_der(),
                            key0.spec_public_key_der(), <CP::Pk as PkProvider>::obeys_key_spec())
                        &&& v@ == certificate_der(tbs, algorithm.spec_der(), signature)
                        &&& (CP::Pk::obeys_key_spec() ==> CP::Pk::spec_signature_verifies(key0.spec_public_key_der(), tbs, signature))
                    };
                    assert(spec_cert_with_key_at::<CP::Pk>(c@, exts, ca, san_view, state, subject@, algorithm.spec_der(),
                        key0.spec_public_key_der(), <CP::Pk as PkProvider>::obeys_key_spec(), key0.spec_public_key_der(),
                        random@, now@, w.0, w.1));
                }
                Ok((c, signing_key))
            },
            Err(e) => Err(e),
        }
    }
}

impl<'a, CP: CryptoProvider, A> Builder<CertificateState<Issuer, CertLifetime>, CP, SpkiKeyMaterial<'a, A>, Subject>
    where A: Clone + AlgorithmIdentifier + DefaultPkParameters<CP::Pk, CP::Rng> + SigningAdapter<CP::Pk>
{
    /// Generates a key with the default parameters of the signature algorithm and builds the
    /// certificate for the configured public key, signed with the generated key. Returns the
    /// certificate and the key. Refused where the algorithm does not go with the generated key.
    /// What follows the generation is `build_cert_with_generated_key`.
    pub fn build_cert_generate_key(self) -> (r: Result<(Certificate, CP::Pk), Error>)
        requires cert_encodable(self),
        ensures
            r matches Ok((c, k)) ==> spec_cert_with_key::<CP::Pk>(
                c@,
                self.spec_extensions(),
                self.spec_ca(),
                self.spec_san(),
                self.spec_use_case_state(),
                self.spec_subject()@,
                self.spec_key_material().spec_algorithm().spec_der(),
                self.spec_key_material().spec_spki_bytes(),
                true,
                k.spec_public_key_der(),
            ),
            r matches Ok((_, k)) ==> (<CP::Pk as PkProvider>::obeys_key_spec() && A::obeys_adapter_spec()
                && <CP::Pk as PkProvider>::SignatureAlgorithm::obeys_eq_spec()
                ==> k.spec_signature_algorithm().eq_spec(&A::spec_signature_algorithm())),
            spec_san_conflict(self.spec_extensions(), self.spec_san()) ==> r is Err,
    {
        let (b, mut crypto_provider) = self.swap_crypto_provider(NoCryptoProvider);
        let generated = A::generate_pk(crypto_provider.rng());
        let (b, _) = b.swap_crypto_provider(crypto_provider);
        b.build_cert_with_generated_key(generated)
    }
}

impl<'a, CP: CryptoProvider, A> Builder<CertificateState<Issuer, CertLifetime>, CP, SpkiKeyMaterial<'a, A>, Subject>
    where A: Clone + AlgorithmIdentifier + SigningAdapter<CP::Pk>
{
    /// Builds the certificate for the configured public key, signed with the key that
    /// generation gave, and returns it with the key. Passes on the error of generation, and
    /// refuses a key that the signature algorithm does not go with.
    pub fn build_cert_with_generated_key(self, generated: Result<CP::Pk, Error>) -> (r: Result<(Certificate, CP::Pk), Error>)
        requires cert_encodable(self),
        ensures
            generated matches Err(e) ==> r == Err::<(Certificate, CP::Pk), Error>(e),
            generated matches Ok(g) ==> (<CP::Pk as PkProvider>::obeys_key_spec() && A::obeys_adapter_spec()
                && <CP::Pk as PkProvider>::SignatureAlgorithm::obeys_eq_spec()
                && !g.spec_signature_algorithm().eq_spec(&A::spec_signature_algorithm())
                ==> (r matches Err(e) && e matches Error::Validation(ValidationErrorType::PkAndSigAlgMismatch))),
            r matches Ok((c, k)) ==> {
                &&& generated matches Ok(g) && k.spec_public_key_der() == g.spec_public_key_der()
                    && k.spec_signature_algorithm() == g.spec_signature_algorithm()
                &&& spec_cert_with_key::<CP::Pk>(
                    c@,
                    self.spec_extensions(),
                    self.spec_ca(),
                    self.spec_san(),
                    self.spec_use_case_state(),
                    self.spec_subject()@,
                    self.spec_key_material().spec_algorithm().spec_der(),
                    self.spec_key_material().spec_spki_bytes(),
                    true,
                    k.spec_public_key_der(),
                )
                &&& (<CP::Pk as PkProvider>::obeys_key_spec() && A::obeys_adapter_spec()
                    && <CP::Pk as PkProvider>::SignatureAlgorithm::obeys_eq_spec()
                    ==> k.spec_signature_algorithm().eq_spec(&A::spec_signature_algorithm()))
            },
            generated matches Ok(g) ==> (rng_gives(self.spec_crypto_provider())
                && tbs_config_accepted_from_start(self.spec_extensions(), self.spec_san(),
                    self.spec_use_case_state().spec_not_before(), self.spec_use_case_state().spec_lifetime())
                && signs_with::<CP::Pk, A>(g) && <CP::Pk as PkProvider>::SignatureAlgorithm::obeys_eq_spec()
                && g.spec_signature_algorithm().eq_spec(&A::spec_signature_algorithm()) ==> r is Ok),
            r matches Ok((c, k)) ==> (rng_models_kept::<CP>() ==> spec_cert_with_key_from::<CP::Pk>(
                c@,
                self.spec_extensions(),
                self.spec_ca(),
                self.spec_san(),
                self.spec_use_case_state(),
                self.spec_subject()@,
                self.spec_key_material().spec_algorithm().spec_der(),
                self.spec_key_material().spec_spki_bytes(),
                true,
                k.spec_public_key_der(),
                next_serial_random(self.spec_crypto_provider()),
            )),
            spec_san_conflict(self.spec_extensions(), self.spec_san()) ==> r is Err,
    {
        let (mut crypto_provider, subject, extensions, san, ca, key_material, state) = self.into_parts();
        let mut signing_key = match generated {
            Ok(k) => k,
            Err(e) => { return Err(e); },
        };
        match A::allows_pk(&signing_key) {
            Ok(()) => {},
            Err(e) => { return Err(e); },
        }
        let random = match random_serial_bytes(crypto_provider.rng()) {
            Ok(v) => v,
            Err(e) => { return Err(e); },
        };
        let now = UtcDateTime::now();
        let SpkiKeyMaterial { spki, signature_algorithm } = key_material;
        match sign_certificate_with_key(random, now, extensions, ca, san, state, &subject, spki, signature_algorithm, &mut signing_key) {
            Ok(v) => {
                let c = Certificate(v);
                Ok((c, signing_key))
            },
            Err(e) => Err(e),
        }
    }
}

/// A certificate wraps a to-be-signed certificate that the same builder builds (for some random
/// bytes and time), together with the builder's signature algorithm and a signature of exactly
/// those bytes.
pub proof fn lemma_certificate_wraps_tbs<CP, K: CertificateKeys>(
    b: Builder<CertificateState<Issuer, CertLifetime>, CP, K, Subject>,
    cert: Seq<u8>,
)
    requires spec_cert_built_by(b, cert),
    ensures
        exists|tbs: Seq<u8>, signature: Seq<u8>| {
            &&& spec_tbs_built_by(b, tbs)
            &&& cert == #[trigger] certificate_der(tbs, b.spec_key_material().spec_signature_algorithm().spec_der(), signature)
            &&& (K::Pk::obeys_key_spec() ==> K::Pk::spec_signature_verifies(b.spec_key_material().spec_signer_public_key(), tbs, signature))
        },
{
    let w = choose|random: Seq<u8>, now: (i64, u32), tbs: Seq<u8>, signature: Seq<u8>|
        #[trigger] spec_builder_cert(b, cert, random, now, tbs, signature);
    assert(spec_builder_tbs(b, Ok(w.2), w.0, w.1));
    assert(spec_tbs_built_by(b, w.2));
}

/// A self-signed certificate carries a signature that verifies under the public key that the
/// certificate itself names, where the key keeps its model.
pub proof fn lemma_self_signed_certificate_verifies<'k, CP: CryptoProvider, A: AlgorithmIdentifier + Clone>(
    b: Builder<CertificateState<Issuer, CertLifetime>, CP, SelfSigningKeyMaterial<'k, CP::Pk, A>, Subject>,
    cert: Seq<u8>,
)
    requires spec_cert_built_by(b, cert),
    ensures
        exists|random: Seq<u8>, now: (i64, u32), tbs: Seq<u8>, signature: Seq<u8>| {
            &&& #[trigger] spec_builder_cert(b, cert, random, now, tbs, signature)
            &&& (CP::Pk::obeys_key_spec() ==> CP::Pk::spec_signature_verifies(b.spec_key_material().spec_spki(), tbs, signature))
        },
{
    let w = choose|random: Seq<u8>, now: (i64, u32), tbs: Seq<u8>, signature: Seq<u8>|
        #[trigger] spec_builder_cert(b, cert, random, now, tbs, signature);
    b.spec_key_material().lemma_names_its_signer();
    assert(spec_builder_cert(b, cert, w.0, w.1, w.2, w.3));
}

/// A to-be-signed certificate that is built has a validity period that does not end before it
/// starts: its start is the one set (or the time of building), and its end is the one set or
/// the start moved by the duration set.
pub proof fn lemma_built_validity_ordered(
    tbs: Seq<u8>,
    serial: Seq<u8>,
    extensions: Seq<X509ExtensionView>,
    ca: bool,
    san: Option<X509ExtensionView>,
    issuer: Seq<NameEntryView>,
    not_before: Option<(i64, u32)>,
    lifetime: CertLifetime,
    now: (i64, u32),
    subject: Seq<NameEntryView>,
    signature_algorithm: Seq<u8>,
    spki: Seq<u8>,
    spki_exact: bool,
)
    requires
        tbs_outcome(Ok(tbs), serial, extensions, ca, san, issuer, not_before, lifetime, now, subject, signature_algorithm,
            spki, spki_exact),
    ensures
        ({
            let nb = spec_effective_not_before(not_before, now);
            exists|na: (i64, u32)| {
                &&& #[trigger] spec_not_after(nb, lifetime) == Some(na)
                &&& !spec_after(nb, na)
                &&& tbs_with_spki(tbs, serial, signature_algorithm, issuer, nb, na, subject, spki, spki_exact,
                    spec_built_extensions(extensions, ca, san))
            }
        }),
        !spec_san_conflict(extensions, san),
{
    let nb = spec_effective_not_before(not_before, now);
    let na = spec_not_after(nb, lifetime).unwrap();
    assert(spec_not_after(nb, lifetime) == Some(na));
}

} // verus!
