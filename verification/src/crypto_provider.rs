//! What a cryptographic backend provides to the builders: randomness, key pairs that sign, and
//! signature algorithms that name themselves in DER and say which keys they go with.

use vstd::prelude::*;

use vstd::std_specs::cmp::PartialEqSpec;

use crate::error::{Error, ValidationErrorType};

verus! {

#[verifier::external_type_specification]
#[verifier::external_body]
#[verifier::reject_recursive_types(H)]
pub struct ExRsaPkcs15<H>(pkix::types::RsaPkcs15<H>);

#[verifier::external_type_specification]
#[verifier::external_body]
#[verifier::reject_recursive_types(H)]
pub struct ExEcdsaX962<H>(pkix::types::EcdsaX962<H>);

#[verifier::external_type_specification]
#[verifier::external_body]
pub struct ExSha256(pkix::types::Sha256);

/// A source of random bytes.
///
/// A source whose output is a function of its state (a deterministic generator checked by
/// Verus) can say so: it defines `spec_next_bytes` and declares `obeys_random_spec`. For other
/// sources `obeys_random_spec` stays false and nothing is said of the bytes.
pub trait Random {
    /// Whether the source gives `spec_next_bytes` when it succeeds.
    closed spec fn obeys_random_spec() -> bool {
        false
    }

    /// The `len` bytes that the source gives next.
    closed spec fn spec_next_bytes(&self, len: nat) -> Seq<u8> {
        arbitrary()
    }

    /// Whether the source gives bytes when asked.
    closed spec fn spec_gives(&self) -> bool {
        arbitrary()
    }

    /// Fills `data` with random bytes.
    fn random(&mut self, data: &mut [u8]) -> (r: Result<(), Error>)
        ensures
            final(data)@.len() == old(data)@.len(),
            Self::obeys_random_spec() ==> (r is Ok <==> old(self).spec_gives()),
            Self::obeys_random_spec() ==> (r is Ok ==> final(data)@ == old(self).spec_next_bytes(old(data)@.len())),
    ;
}

/// A cryptographic backend: the type of its keys and its random number generator.
///
/// A backend that hands out the generator it holds can say so: it defines `spec_rng` and
/// declares `obeys_provider_spec`; for others that stays false.
pub trait CryptoProvider {
    type Pk: PkProvider;
    type Rng: Random;

    /// Whether `rng` hands out `spec_rng`.
    closed spec fn obeys_provider_spec() -> bool {
        false
    }

    /// The random number generator that the backend holds.
    closed spec fn spec_rng(&self) -> Self::Rng {
        arbitrary()
    }

    fn rng(&mut self) -> (r: &mut Self::Rng)
        ensures Self::obeys_provider_spec() ==> *r == old(self).spec_rng(),
    ;
}

/// The state of a builder that has no cryptographic backend yet.
#[derive(Clone, Copy, Debug)]
pub struct NoCryptoProvider;

/// A signature algorithm that can state its AlgorithmIdentifier in DER.
pub trait AlgorithmIdentifier {
    /// The DER encoding of the AlgorithmIdentifier.
    spec fn spec_der(&self) -> Seq<u8>;

    fn der(&self) -> (r: Vec<u8>)
        ensures r@ == self.spec_der();
}

/// The DER AlgorithmIdentifier of sha256WithRSAEncryption (1.2.840.113549.1.1.11), with NULL
/// parameters.
pub open spec fn spec_rsa_pkcs15_sha256_der() -> Seq<u8> {
    seq![0x30u8, 0x0d, 0x06, 0x09, 0x2a, 0x86, 0x48, 0x86, 0xf7, 0x0d, 0x01, 0x01, 0x0b, 0x05, 0x00]
}

/// The DER AlgorithmIdentifier of ecdsa-with-SHA256 (1.2.840.10045.4.3.2), without parameters.
pub open spec fn spec_ecdsa_x962_sha256_der() -> Seq<u8> {
    seq![0x30u8, 0x0a, 0x06, 0x08, 0x2a, 0x86, 0x48, 0xce, 0x3d, 0x04, 0x03, 0x02]
}

/// `pkix`'s DER encoding of `RsaPkcs15(Sha256)`: a SEQUENCE of the sha256WithRSAEncryption
/// identifier and NULL.
#[verifier::external_body]
fn rsa_pkcs15_sha256_der(algorithm: &pkix::types::RsaPkcs15<pkix::types::Sha256>) -> (r: Vec<u8>)
    ensures r@ == spec_rsa_pkcs15_sha256_der(),
{
    pkix::ToDer::to_der(algorithm)
}

/// `pkix`'s DER encoding of `EcdsaX962(Sha256)`: a SEQUENCE holding the ecdsa-with-SHA256
/// identifier.
#[verifier::external_body]
fn ecdsa_x962_sha256_der(algorithm: &pkix::types::EcdsaX962<pkix::types::Sha256>) -> (r: Vec<u8>)
    ensures r@ == spec_ecdsa_x962_sha256_der(),
{
    pkix::ToDer::to_der(algorithm)
}

impl AlgorithmIdentifier for pkix::types::RsaPkcs15<pkix::types::Sha256> {
    open spec fn spec_der(&self) -> Seq<u8> {
        spec_rsa_pkcs15_sha256_der()
    }

    fn der(&self) -> (r: Vec<u8>) {
        rsa_pkcs15_sha256_der(self)
    }
}

impl AlgorithmIdentifier for pkix::types::EcdsaX962<pkix::types::Sha256> {
    open spec fn spec_der(&self) -> Seq<u8> {
        spec_ecdsa_x962_sha256_der()
    }

    fn der(&self) -> (r: Vec<u8>) {
        ecdsa_x962_sha256_der(self)
    }
}

/// Key pairs that the builders use: they give their public key in DER and sign data.
///
/// Implementations plug a cryptographic backend into the builders.
pub trait PkProvider {
    /// The kind of key, by which signature algorithms are matched with keys.
    type SignatureAlgorithm: PartialEq;

    /// What a signature algorithm needs to know of a key to sign with it.
    type SignatureMeta;

    type HashAlgorithm;

    /// What signing needs to know of a hash algorithm.
    type HashMeta;

    // The spec functions below are the model of a key that the contracts speak of. An
    // implementation that Verus checks defines them and declares that it keeps them, with
    // `obeys_key_spec`; the bodies here only let implementations written outside Verus compile
    // without them. For such an implementation `obeys_key_spec` stays false, and the contracts
    // promise nothing of what its key calls return.

    /// Whether the implementation keeps the model below: its calls return what the contracts
    /// say of the model.
    closed spec fn obeys_key_spec() -> bool {
        false
    }

    /// The DER SubjectPublicKeyInfo of the key.
    closed spec fn spec_public_key_der(&self) -> Seq<u8> {
        arbitrary()
    }

    /// The kind of the key.
    closed spec fn spec_signature_algorithm(&self) -> Self::SignatureAlgorithm {
        arbitrary()
    }

    /// Whether `write_public_key_der` succeeds on the key.
    closed spec fn spec_exports(&self) -> bool {
        arbitrary()
    }

    /// Whether `sign_data` succeeds on the key.
    closed spec fn spec_signs(&self) -> bool {
        arbitrary()
    }

    /// Whether `signature` is a signature of `data` under the key whose public key is
    /// `public_key_der`.
    closed spec fn spec_signature_verifies(public_key_der: Seq<u8>, data: Seq<u8>, signature: Seq<u8>) -> bool {
        arbitrary()
    }

    /// Signs `data`, hashing it with the given hash algorithm.
    fn sign_data(
        &mut self,
        hash_algorithm: Self::HashAlgorithm,
        hash_meta: Self::HashMeta,
        signature_meta: Self::SignatureMeta,
        data: &[u8],
    ) -> (r: Result<Vec<u8>, Error>)
        ensures
            Self::obeys_key_spec() ==>
                (r matches Ok(sig) ==> Self::spec_signature_verifies(old(self).spec_public_key_der(), data@, sig@)),
            Self::obeys_key_spec() ==> (r is Ok <==> old(self).spec_signs()),
            final(self).spec_exports() == old(self).spec_exports(),
            final(self).spec_signs() == old(self).spec_signs(),
            final(self).spec_public_key_der() == old(self).spec_public_key_der(),
            final(self).spec_signature_algorithm() == old(self).spec_signature_algorithm(),
    ;

    /// The DER SubjectPublicKeyInfo of the key.
    fn write_public_key_der(&mut self) -> (r: Result<Vec<u8>, Error>)
        ensures
            Self::obeys_key_spec() ==> (r matches Ok(v) ==> v@ == old(self).spec_public_key_der()),
            Self::obeys_key_spec() ==> (r is Ok <==> old(self).spec_exports()),
            final(self).spec_exports() == old(self).spec_exports(),
            final(self).spec_signs() == old(self).spec_signs(),
            final(self).spec_public_key_der() == old(self).spec_public_key_der(),
            final(self).spec_signature_algorithm() == old(self).spec_signature_algorithm(),
    ;

    fn signature_algorithm(&self) -> (r: Self::SignatureAlgorithm)
        ensures Self::obeys_key_spec() ==> r == self.spec_signature_algorithm(),
    ;
}

/// Links a signature algorithm to the keys of a `PkProvider` and to its hash algorithms.
pub trait SigningAdapter<PK: PkProvider>: AlgorithmIdentifier {
    /// Whether the implementation keeps `spec_signature_algorithm`. An implementation that
    /// Verus checks defines both; for one written outside Verus this stays false and the
    /// contract promises nothing of what `signature_algorithm` returns.
    closed spec fn obeys_adapter_spec() -> bool {
        false
    }

    /// The kind of key that the algorithm signs with. An implementation that Verus checks
    /// defines it; the body here only lets implementations written outside Verus compile.
    closed spec fn spec_signature_algorithm() -> PK::SignatureAlgorithm {
        arbitrary()
    }

    fn signature_algorithm() -> (r: PK::SignatureAlgorithm)
        ensures Self::obeys_adapter_spec() ==> r == Self::spec_signature_algorithm(),
    ;

    /// Whether `signature_meta` succeeds.
    closed spec fn spec_meta_given() -> bool {
        arbitrary()
    }

    /// Can fail where `pk` is not of the kind that the algorithm signs with.
    fn signature_meta(pk: &PK) -> (r: Result<PK::SignatureMeta, Error>)
        ensures
            Self::obeys_adapter_spec() ==> (r is Ok <==> Self::spec_meta_given()),
    ;

    fn hash_algorithm() -> PK::HashAlgorithm;

    fn hash_meta() -> PK::HashMeta;

    /// `Ok` exactly where `pk` is of the kind that the algorithm signs with.
    fn allows_pk(pk: &PK) -> (r: Result<(), Error>)
        ensures
            r matches Err(e) ==> e matches Error::Validation(ValidationErrorType::PkAndSigAlgMismatch),
            PK::obeys_key_spec() && Self::obeys_adapter_spec() && <PK::SignatureAlgorithm as PartialEqSpec>::obeys_eq_spec() ==>
                (r is Ok <==> pk.spec_signature_algorithm().eq_spec(&Self::spec_signature_algorithm())),
    {
        if pk.signature_algorithm() == Self::signature_algorithm() {
            Ok(())
        } else {
            Err(Error::Validation(ValidationErrorType::PkAndSigAlgMismatch))
        }
    }
}

/// Signing with `pk` under the signature algorithm `A` succeeds, as the models of the key and of
/// the algorithm say.
pub open spec fn signs_with<PK: PkProvider, A: SigningAdapter<PK>>(pk: PK) -> bool {
    &&& PK::obeys_key_spec()
    &&& A::obeys_adapter_spec()
    &&& A::spec_meta_given()
    &&& pk.spec_signs()
}

/// Signs `data` with `pk` under the signature algorithm `A`, gathering what `A` says of the
/// hash and of the key.
pub fn sign_with<PK: PkProvider, A: SigningAdapter<PK>>(pk: &mut PK, data: &[u8]) -> (r: Result<Vec<u8>, Error>)
    ensures
        signs_with::<PK, A>(*old(pk)) ==> r is Ok,
        final(pk).spec_exports() == old(pk).spec_exports(),
        final(pk).spec_signs() == old(pk).spec_signs(),
        PK::obeys_key_spec() ==> (r matches Ok(sig) ==> PK::spec_signature_verifies(old(pk).spec_public_key_der(), data@, sig@)),
        final(pk).spec_public_key_der() == old(pk).spec_public_key_der(),
        final(pk).spec_signature_algorithm() == old(pk).spec_signature_algorithm(),
{
    let signature_meta = match A::signature_meta(pk) {
        Ok(m) => m,
        Err(e) => { return Err(e); },
    };
    pk.sign_data(A::hash_algorithm(), A::hash_meta(), signature_meta, data)
}

/// Signature algorithms with default key parameters, which can generate keys of type `PK`
/// with randomness from a source of type `R` (that of the cryptographic backend).
pub trait DefaultPkParameters<PK, R: Random> {
    fn generate_pk(rng: &mut R) -> Result<PK, Error>;
}

} // verus!
