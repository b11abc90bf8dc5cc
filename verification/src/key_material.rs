//! The key material of a builder: what public key the result names, with which signature
//! algorithm, and which private key signs it.

use vstd::prelude::*;

use crate::crypto_provider::{AlgorithmIdentifier, PkProvider};
use crate::error::Error;

verus! {

/// Key material that a to-be-signed certificate can name.
pub trait TbsKeys {
    type SigAlgorithm: AlgorithmIdentifier + Clone;

    /// The DER SubjectPublicKeyInfo that `spki` gives.
    spec fn spec_spki(&self) -> Seq<u8>;

    /// The signature algorithm that the to-be-signed certificate lists.
    spec fn spec_signature_algorithm(&self) -> Self::SigAlgorithm;

    /// The DER public key of the private key that signs, for key material that holds one.
    spec fn spec_signer_public_key(&self) -> Seq<u8>;

    /// `spki` never fails: the key material holds its public key as bytes.
    spec fn spec_spki_infallible(&self) -> bool;

    /// What `spki` gives is `spec_spki`: the key material holds its public key as bytes, or its
    /// key keeps the model that the contracts speak of.
    spec fn spec_spki_exact(&self) -> bool;

    /// `spki` succeeds: the key material holds its public key as bytes, or its key keeps its
    /// model and exports its public key.
    spec fn spec_spki_succeeds(&self) -> bool;

    /// The key material holds a key that signs, which keeps its model and whose signing
    /// succeeds.
    spec fn spec_signer_signs(&self) -> bool;

    /// The DER SubjectPublicKeyInfo. Takes `&mut self` since some keys fill a cache while
    /// they extract their public key.
    fn spki(&mut self) -> (r: Result<Vec<u8>, Error>)
        ensures
            old(self).spec_spki_exact() ==> (r matches Ok(v) ==> v@ == old(self).spec_spki()),
            old(self).spec_spki_infallible() ==> r is Ok,
            old(self).spec_spki_succeeds() ==> r is Ok,
            final(self).spec_spki_infallible() == old(self).spec_spki_infallible(),
            final(self).spec_spki_succeeds() == old(self).spec_spki_succeeds(),
            final(self).spec_signer_signs() == old(self).spec_signer_signs(),
            final(self).spec_spki_exact() == old(self).spec_spki_exact(),
            final(self).spec_spki() == old(self).spec_spki(),
            final(self).spec_signature_algorithm() == old(self).spec_signature_algorithm(),
            final(self).spec_signer_public_key() == old(self).spec_signer_public_key(),
    ;

    fn signature_algorithm(&self) -> (r: Self::SigAlgorithm)
        ensures cloned::<Self::SigAlgorithm>(self.spec_signature_algorithm(), r),
    ;

    /// The DER AlgorithmIdentifier of the signature algorithm.
    fn signature_algorithm_der(&self) -> (r: Vec<u8>)
        ensures r@ == self.spec_signature_algorithm().spec_der(),
    ;
}

/// A borrowed key material names what the key material names, so that building a
/// to-be-signed certificate need not consume the private key.
impl<'k, T: TbsKeys> TbsKeys for &'k mut T {
    type SigAlgorithm = T::SigAlgorithm;

    open spec fn spec_spki(&self) -> Seq<u8> {
        (**self).spec_spki()
    }

    open spec fn spec_signature_algorithm(&self) -> T::SigAlgorithm {
        (**self).spec_signature_algorithm()
    }

    open spec fn spec_signer_public_key(&self) -> Seq<u8> {
        (**self).spec_signer_public_key()
    }

    open spec fn spec_spki_infallible(&self) -> bool {
        (**self).spec_spki_infallible()
    }

    open spec fn spec_spki_exact(&self) -> bool {
        (**self).spec_spki_exact()
    }

    open spec fn spec_spki_succeeds(&self) -> bool {
        (**self).spec_spki_succeeds()
    }

    open spec fn spec_signer_signs(&self) -> bool {
        (**self).spec_signer_signs()
    }

    fn spki(&mut self) -> (r: Result<Vec<u8>, Error>) {
        (**self).spki()
    }

    fn signature_algorithm(&self) -> (r: T::SigAlgorithm) {
        (**self).signature_algorithm()
    }

    fn signature_algorithm_der(&self) -> (r: Vec<u8>) {
        (**self).signature_algorithm_der()
    }
}

/// Key material that also holds the private key that signs.
pub trait CertificateKeys: TbsKeys {
    type Pk: PkProvider;

    /// The private key.
    spec fn spec_private_key(&self) -> Self::Pk;

    fn private_key(&mut self) -> (r: &mut Self::Pk)
        ensures
            *r == old(self).spec_private_key(),
            r.spec_public_key_der() == old(self).spec_signer_public_key(),
            final(self).spec_private_key() == *final(r),
            final(self).spec_signer_public_key() == final(r).spec_public_key_der(),
            final(self).spec_signature_algorithm() == old(self).spec_signature_algorithm(),
            old(self).spec_signer_signs() ==> Self::Pk::obeys_key_spec() && r.spec_signs(),
            final(self).spec_signer_signs() == (Self::Pk::obeys_key_spec() && final(r).spec_signs()),
    ;

    /// Whether the public key that the result names is that of the private key that signs it.
    /// Key material that does not say so is taken not to be self-signing.
    fn is_self_signed(&self) -> (r: bool)
        ensures
            r ==> self.spec_spki() == self.spec_signer_public_key(),
        default_ensures
            !r,
    {
        false
    }
}

/// State in which no key material is configured yet; building is impossible.
#[derive(Clone, Copy, Debug)]
pub struct NoKeyMaterial;

/// State in which default key material for self-signing will be generated with the signature
/// algorithm `A`.
pub struct DefaultSelfSigningKeyMaterial<A>(pub A);

impl<A> DefaultSelfSigningKeyMaterial<A> {
    /// The signature algorithm.
    pub open spec fn spec_algorithm(&self) -> A {
        self.0
    }

    pub fn new(signature_algorithm: A) -> (r: Self)
        ensures r.spec_algorithm() == signature_algorithm,
    {
        DefaultSelfSigningKeyMaterial(signature_algorithm)
    }

    /// The signature algorithm.
    pub fn into_algorithm(self) -> (r: A)
        ensures r == self.spec_algorithm(),
    {
        self.0
    }
}

/// State holding a public key (without its private key) and a signature algorithm.
#[derive(Debug)]
pub struct SpkiKeyMaterial<'a, A> {
    pub spki: &'a [u8],

    /// The signature algorithm that the to-be-signed certificate lists and that should be used
    /// to sign it.
    pub signature_algorithm: A,
}

impl<'a, A> SpkiKeyMaterial<'a, A> {
    /// The DER SubjectPublicKeyInfo.
    pub open spec fn spec_spki_bytes(&self) -> Seq<u8> {
        self.spki@
    }

    /// The signature algorithm.
    pub open spec fn spec_algorithm(&self) -> A {
        self.signature_algorithm
    }

    pub fn new(spki: &'a [u8], signature_algorithm: A) -> (r: Self)
        ensures r.spec_spki_bytes() == spki@, r.spec_algorithm() == signature_algorithm,
    {
        SpkiKeyMaterial { spki, signature_algorithm }
    }
}

/// State that allows self-signing with a key pair.
pub struct SelfSigningKeyMaterial<'a, PK, A> {
    pub signing_key: &'a mut PK,

    /// The signature algorithm that the to-be-signed certificate lists and that signs it.
    pub signature_algorithm: A,
}

impl<'a, PK: PkProvider, A: AlgorithmIdentifier + Clone> SelfSigningKeyMaterial<'a, PK, A> {
    /// Self-signing key material names the public key of the key that signs: a certificate
    /// built with it carries a signature that verifies under the public key it lists, where the
    /// key keeps its model.
    pub proof fn lemma_names_its_signer(&self)
        ensures
            self.spec_spki() == self.spec_signer_public_key(),
            self.spec_signer_public_key() == self.spec_key().spec_public_key_der(),
            self.spec_signature_algorithm() == self.spec_algorithm(),
    {
    }
}

impl<'a, PK, A> SelfSigningKeyMaterial<'a, PK, A> {
    pub fn new(signing_key: &'a mut PK, signature_algorithm: A) -> (r: Self)
        ensures
            r.spec_key() == *old(signing_key),
            r.spec_algorithm() == signature_algorithm,
    {
        SelfSigningKeyMaterial { signing_key, signature_algorithm }
    }


    /// The key pair.
    pub open spec fn spec_key(&self) -> PK {
        *self.signing_key
    }

    /// The signature algorithm.
    pub open spec fn spec_algorithm(&self) -> A {
        self.signature_algorithm
    }
}

/// State that allows signing a certificate for the given public key with the given private key.
pub struct CertificateKeyMaterial<'a, 'b, A, PK> {
    pub tbs_key_material: SpkiKeyMaterial<'a, A>,
    pub signing_key: &'b mut PK,
}

impl<'a, 'b, A: AlgorithmIdentifier + Clone, PK: PkProvider> CertificateKeyMaterial<'a, 'b, A, PK> {
    /// The key material names the given public key and signature algorithm, and signs with the
    /// given key.
    pub proof fn lemma_parts(&self)
        ensures
            self.spec_spki() == self.spec_tbs_key_material().spec_spki_bytes(),
            self.spec_signature_algorithm() == self.spec_tbs_key_material().spec_algorithm(),
            self.spec_signer_public_key() == self.spec_key().spec_public_key_der(),
    {
    }
}

impl<'a, 'b, A, PK> CertificateKeyMaterial<'a, 'b, A, PK> {

    pub fn new(tbs_key_material: SpkiKeyMaterial<'a, A>, signing_key: &'b mut PK) -> (r: Self)
        ensures
            r.spec_tbs_key_material() == tbs_key_material,
            r.spec_key() == *old(signing_key),
    {
        CertificateKeyMaterial { tbs_key_material, signing_key }
    }

    /// The public key and signature algorithm that the certificate lists.
    pub open spec fn spec_tbs_key_material(&self) -> SpkiKeyMaterial<'a, A> {
        self.tbs_key_material
    }

    /// The private key that signs.
    pub open spec fn spec_key(&self) -> PK {
        *self.signing_key
    }
}

impl<'a, A: AlgorithmIdentifier + Clone> TbsKeys for SpkiKeyMaterial<'a, A> {
    type SigAlgorithm = A;

    open spec fn spec_spki(&self) -> Seq<u8> {
        self.spki@
    }

    open spec fn spec_signature_algorithm(&self) -> A {
        self.signature_algorithm
    }

    open spec fn spec_signer_public_key(&self) -> Seq<u8> {
        Seq::empty()
    }

    open spec fn spec_spki_infallible(&self) -> bool {
        true
    }

    open spec fn spec_spki_exact(&self) -> bool {
        true
    }

    open spec fn spec_spki_succeeds(&self) -> bool {
        true
    }

    open spec fn spec_signer_signs(&self) -> bool {
        false
    }

    fn spki(&mut self) -> (r: Result<Vec<u8>, Error>) {
        Ok(vstd::slice::slice_to_vec(self.spki))
    }

    fn signature_algorithm(&self) -> (r: A) {
        self.signature_algorithm.clone()
    }

    fn signature_algorithm_der(&self) -> (r: Vec<u8>) {
        self.signature_algorithm.der()
    }
}

impl<'a, PK: PkProvider, A: AlgorithmIdentifier + Clone> TbsKeys for SelfSigningKeyMaterial<'a, PK, A> {
    type SigAlgorithm = A;

    open spec fn spec_spki(&self) -> Seq<u8> {
        self.signing_key.spec_public_key_der()
    }

    open spec fn spec_signature_algorithm(&self) -> A {
        self.signature_algorithm
    }

    open spec fn spec_signer_public_key(&self) -> Seq<u8> {
        self.signing_key.spec_public_key_der()
    }

    open spec fn spec_spki_infallible(&self) -> bool {
        false
    }

    open spec fn spec_spki_exact(&self) -> bool {
        PK::obeys_key_spec()
    }

    open spec fn spec_spki_succeeds(&self) -> bool {
        PK::obeys_key_spec() && self.signing_key.spec_exports()
    }

    open spec fn spec_signer_signs(&self) -> bool {
        PK::obeys_key_spec() && self.signing_key.spec_signs()
    }

    fn spki(&mut self) -> (r: Result<Vec<u8>, Error>) {
        self.signing_key.write_public_key_der()
    }

    fn signature_algorithm(&self) -> (r: A) {
        self.signature_algorithm.clone()
    }

    fn signature_algorithm_der(&self) -> (r: Vec<u8>) {
        self.signature_algorithm.der()
    }
}

impl<'a, PK: PkProvider, A: AlgorithmIdentifier + Clone> CertificateKeys for SelfSigningKeyMaterial<'a, PK, A> {
    type Pk = PK;

    open spec fn spec_private_key(&self) -> PK {
        *self.signing_key
    }

    fn private_key(&mut self) -> (r: &mut PK) {
        self.signing_key
    }

    fn is_self_signed(&self) -> (r: bool)
        ensures r,
    {
        true
    }
}

impl<'a, 'b, A: AlgorithmIdentifier + Clone, PK: PkProvider> TbsKeys for CertificateKeyMaterial<'a, 'b, A, PK> {
    type SigAlgorithm = A;

    open spec fn spec_spki(&self) -> Seq<u8> {
        self.tbs_key_material.spki@
    }

    open spec fn spec_signature_algorithm(&self) -> A {
        self.tbs_key_material.signature_algorithm
    }

    open spec fn spec_signer_public_key(&self) -> Seq<u8> {
        self.signing_key.spec_public_key_der()
    }

    open spec fn spec_spki_infallible(&self) -> bool {
        true
    }

    open spec fn spec_spki_exact(&self) -> bool {
        true
    }

    open spec fn spec_spki_succeeds(&self) -> bool {
        true
    }

    open spec fn spec_signer_signs(&self) -> bool {
        PK::obeys_key_spec() && self.signing_key.spec_signs()
    }

    fn spki(&mut self) -> (r: Result<Vec<u8>, Error>) {
        self.tbs_key_material.spki()
    }

    fn signature_algorithm(&self) -> (r: A) {
        self.tbs_key_material.signature_algorithm()
    }

    fn signature_algorithm_der(&self) -> (r: Vec<u8>) {
        self.tbs_key_material.signature_algorithm_der()
    }
}

impl<'a, 'b, A: AlgorithmIdentifier + Clone, PK: PkProvider> CertificateKeys for CertificateKeyMaterial<'a, 'b, A, PK> {
    type Pk = PK;

    open spec fn spec_private_key(&self) -> PK {
        *self.signing_key
    }

    fn private_key(&mut self) -> (r: &mut PK) {
        self.signing_key
    }
}

/// Self-signing key material that owns its key, as when building generates the key.
pub struct OwnedSigningKeyMaterial<PK, A> {
    pub signing_key: PK,
    pub signature_algorithm: A,
}

impl<PK: PkProvider, A: AlgorithmIdentifier + Clone> TbsKeys for OwnedSigningKeyMaterial<PK, A> {
    type SigAlgorithm = A;

    open spec fn spec_spki(&self) -> Seq<u8> {
        self.signing_key.spec_public_key_der()
    }

    open spec fn spec_signature_algorithm(&self) -> A {
        self.signature_algorithm
    }

    open spec fn spec_signer_public_key(&self) -> Seq<u8> {
        self.signing_key.spec_public_key_der()
    }

    open spec fn spec_spki_infallible(&self) -> bool {
        false
    }

    open spec fn spec_spki_exact(&self) -> bool {
        PK::obeys_key_spec()
    }

    open spec fn spec_spki_succeeds(&self) -> bool {
        PK::obeys_key_spec() && self.signing_key.spec_exports()
    }

    open spec fn spec_signer_signs(&self) -> bool {
        PK::obeys_key_spec() && self.signing_key.spec_signs()
    }

    fn spki(&mut self) -> (r: Result<Vec<u8>, Error>) {
        self.signing_key.write_public_key_der()
    }

    fn signature_algorithm(&self) -> (r: A) {
        self.signature_algorithm.clone()
    }

    fn signature_algorithm_der(&self) -> (r: Vec<u8>) {
        self.signature_algorithm.der()
    }
}

impl<PK: PkProvider, A: AlgorithmIdentifier + Clone> CertificateKeys for OwnedSigningKeyMaterial<PK, A> {
    type Pk = PK;

    open spec fn spec_private_key(&self) -> PK {
        self.signing_key
    }

    fn private_key(&mut self) -> (r: &mut PK) {
        &mut self.signing_key
    }

    fn is_self_signed(&self) -> (r: bool)
        ensures r,
    {
        true
    }
}

} // verus!
