use certbuilder::cert_builder::assemble_certificate;
use certbuilder::csr_builder::assemble_request;
use certbuilder::key_material::{CertificateKeyMaterial, CertificateKeys, SelfSigningKeyMaterial, SpkiKeyMaterial};
use certbuilder::cert_builder::{serial_from_random, CertificateState};
use certbuilder::crypto_provider::{AlgorithmIdentifier, CryptoProvider, DefaultPkParameters, PkProvider, Random, SigningAdapter};
use certbuilder::error::{Error, ValidationErrorType};
use certbuilder::name_builder::NameBuilder;
use certbuilder::time::{Duration, UtcDateTime};
use certbuilder::types::{AltName, CsrAttribute, X509Extension};
use certbuilder::{Builder, Certificate, Csr};
use pkix::types::{EcdsaX962, RsaPkcs15, Sha256};
use pkix::FromDer;

/// A key whose "signature" is its public key followed by the first bytes of the data.
struct TestKey {
    public: Vec<u8>,
    kind: u8,
}

const ECDSA: u8 = 1;
const RSA: u8 = 2;

/// A SubjectPublicKeyInfo-shaped DER value: SEQUENCE { INTEGER n }.
fn spki_der(n: u8) -> Vec<u8> {
    vec![0x30, 0x03, 0x02, 0x01, n]
}

impl PkProvider for TestKey {
    type SignatureAlgorithm = u8;
    type SignatureMeta = usize;
    type HashAlgorithm = u8;
    type HashMeta = usize;

    fn sign_data(&mut self, _h: u8, _hm: usize, _sm: usize, data: &[u8]) -> Result<Vec<u8>, Error> {
        let mut sig = self.public.clone();
        sig.extend_from_slice(&data[..4]);
        Ok(sig)
    }

    fn write_public_key_der(&mut self) -> Result<Vec<u8>, Error> {
        if self.public.is_empty() {
            return Err(Error::Pki("no public key".to_string()));
        }
        Ok(self.public.clone())
    }

    fn signature_algorithm(&self) -> u8 {
        self.kind
    }
}

impl SigningAdapter<TestKey> for EcdsaX962<Sha256> {
    fn signature_algorithm() -> u8 {
        ECDSA
    }

    fn signature_meta(_pk: &TestKey) -> Result<usize, Error> {
        Ok(72)
    }

    fn hash_algorithm() -> u8 {
        0
    }

    fn hash_meta() -> usize {
        32
    }
}

impl SigningAdapter<TestKey> for RsaPkcs15<Sha256> {
    fn signature_algorithm() -> u8 {
        RSA
    }

    fn signature_meta(_pk: &TestKey) -> Result<usize, Error> {
        Ok(256)
    }

    fn hash_algorithm() -> u8 {
        0
    }

    fn hash_meta() -> usize {
        32
    }
}

impl DefaultPkParameters<TestKey, FixedRng> for EcdsaX962<Sha256> {
    fn generate_pk(rng: &mut FixedRng) -> Result<TestKey, Error> {
        let mut b = [0u8; 1];
        rng.random(&mut b)?;
        // A zero byte gives a key that cannot export its public key.
        let public = if b[0] == 0 { Vec::new() } else { spki_der(b[0] & 0x7f) };
        Ok(TestKey { public, kind: ECDSA })
    }
}

impl DefaultPkParameters<TestKey, FixedRng> for RsaPkcs15<Sha256> {
    fn generate_pk(_rng: &mut FixedRng) -> Result<TestKey, Error> {
        // Generates a key of the wrong kind for this algorithm.
        Ok(TestKey { public: spki_der(9), kind: ECDSA })
    }
}

/// Fills buffers with a fixed byte.
struct FixedRng(u8);

impl Random for FixedRng {
    fn random(&mut self, data: &mut [u8]) -> Result<(), Error> {
        for b in data.iter_mut() {
            *b = self.0;
        }
        Ok(())
    }
}

/// Fails to give random bytes.
struct FailingRng;

impl Random for FailingRng {
    fn random(&mut self, _data: &mut [u8]) -> Result<(), Error> {
        Err(Error::Pki("no randomness".to_string()))
    }
}

struct TestProvider(FixedRng);

impl CryptoProvider for TestProvider {
    type Pk = TestKey;
    type Rng = FixedRng;

    fn rng(&mut self) -> &mut FixedRng {
        &mut self.0
    }
}

struct FailingProvider(FailingRng);

impl CryptoProvider for FailingProvider {
    type Pk = TestKey;
    type Rng = FailingRng;

    fn rng(&mut self) -> &mut FailingRng {
        &mut self.0
    }
}

fn time(secs: i64) -> UtcDateTime {
    UtcDateTime::from_timestamp(secs, 0).unwrap()
}

fn subject() -> certbuilder::name_builder::Subject {
    NameBuilder::new().add_common_name("subject".to_string()).build_subject()
}

fn issuer() -> certbuilder::name_builder::Issuer {
    NameBuilder::new().add_common_name("issuer".to_string()).build_issuer()
}

fn ext(oid: Vec<u64>) -> X509Extension {
    X509Extension { oid, critical: false, value: vec![0x05, 0x00] }
}

const ECDSA_SHA256_DER: [u8; 12] = [0x30, 0x0a, 0x06, 0x08, 0x2a, 0x86, 0x48, 0xce, 0x3d, 0x04, 0x03, 0x02];
const RSA_SHA256_DER: [u8; 15] = [0x30, 0x0d, 0x06, 0x09, 0x2a, 0x86, 0x48, 0x86, 0xf7, 0x0d, 0x01, 0x01, 0x0b, 0x05, 0x00];

fn parse_tbs(der: &[u8]) -> pkix::x509::GenericTbsCertificate {
    pkix::x509::GenericTbsCertificate::from_der(der).expect("the to-be-signed certificate parses")
}

#[test]
fn algorithm_identifiers_encode_as_stated() {
    assert_eq!(EcdsaX962(Sha256).der(), ECDSA_SHA256_DER.to_vec());
    assert_eq!(RsaPkcs15(Sha256).der(), RSA_SHA256_DER.to_vec());
}

#[test]
fn serial_clears_the_top_bit_only() {
    let serial = serial_from_random(vec![0xff; 20]);
    assert_eq!(serial[0], 0x7f);
    assert!(serial[1..].iter().all(|b| *b == 0xff));
    assert_eq!(serial.len(), 20);
    let serial2 = serial_from_random(vec![0x12; 20]);
    assert_eq!(serial2[0], 0x12);
}

#[test]
fn tbs_with_given_serial_and_time_has_the_configured_fields() {
    let spki = spki_der(5);
    let tbs = Certificate::builder()
        .with_subject(subject())
        .with_issuer(issuer())
        .with_validity_notbefore(time(1_000_000))
        .with_validity_duration(Duration::new(3600, 0).unwrap())
        .with_spki(&spki, EcdsaX962(Sha256))
        .build_tbs_with(vec![0x81; 20], time(5))
        .expect("builds");
    let parsed = parse_tbs(&tbs);
    assert_eq!(parsed.version, 2);
    let serial_bytes = parsed.serial.to_bytes_be();
    assert_eq!(serial_bytes.len(), 20);
    assert_eq!(serial_bytes[0], 0x01);
    assert!(serial_bytes[1..].iter().all(|b| *b == 0x81));
    assert_eq!(parsed.sigalg.value.as_ref(), &ECDSA_SHA256_DER[..]);
    assert_eq!(parsed.validity_notbefore.to_seconds_since_epoch(), 1_000_000);
    assert_eq!(parsed.validity_notafter.to_seconds_since_epoch(), 1_003_600);
    assert_eq!(parsed.spki.value.as_ref(), &spki[..]);
    assert_eq!(parsed.issuer.value.len(), 1);
    assert_eq!(parsed.issuer.value[0].1.value(), b"issuer");
    assert_eq!(parsed.subject.value[0].1.value(), b"subject");
    // BasicConstraints, critical, not a CA.
    assert_eq!(parsed.extensions.len(), 1);
    assert_eq!(parsed.extensions[0].oid.components(), &vec![2, 5, 29, 19]);
    assert!(parsed.extensions[0].critical);
    assert_eq!(parsed.extensions[0].value, vec![0x30, 0x00]);
}

#[test]
fn start_defaults_to_the_given_time() {
    let spki = spki_der(5);
    let tbs = Certificate::builder()
        .with_subject(subject())
        .with_issuer(issuer())
        .with_validity_notafter(time(2_000))
        .with_spki(&spki, EcdsaX962(Sha256))
        .build_tbs_with(vec![0; 20], time(1_000))
        .expect("builds");
    let parsed = parse_tbs(&tbs);
    assert_eq!(parsed.validity_notbefore.to_seconds_since_epoch(), 1_000);
    assert_eq!(parsed.validity_notafter.to_seconds_since_epoch(), 2_000);
}

#[test]
fn ca_certificate_carries_ca_basic_constraints_and_extensions_in_order() {
    let spki = spki_der(5);
    let tbs = Certificate::builder()
        .with_subject(subject())
        .with_issuer(issuer())
        .with_validity_notbefore(time(10))
        .with_validity_notafter(time(20))
        .make_ca_certificate()
        .with_extensions(vec![ext(vec![1, 2, 3]), ext(vec![1, 2, 4])])
        .unwrap()
        .with_san_extension_from_strs(&["example.com", "www.example.com"])
        .with_spki(&spki, RsaPkcs15(Sha256))
        .build_tbs_with(vec![1; 20], time(0))
        .expect("builds");
    let parsed = parse_tbs(&tbs);
    let oids: Vec<Vec<u64>> = parsed.extensions.iter().map(|e| e.oid.components().clone()).collect();
    assert_eq!(oids, vec![vec![1, 2, 3], vec![1, 2, 4], vec![2, 5, 29, 19], vec![2, 5, 29, 17]]);
    assert_eq!(parsed.extensions[2].value, vec![0x30, 0x03, 0x01, 0x01, 0xFF]);
    assert!(!parsed.extensions[3].critical);
    let san = pkix::x509::SubjectAltName::from_der(&parsed.extensions[3].value).unwrap();
    assert_eq!(san.names.len(), 2);
    assert_eq!(san.names[0], pkix::types::GeneralName::DnsName("example.com".into()));
    assert_eq!(parsed.sigalg.value.as_ref(), &RSA_SHA256_DER[..]);
}

#[test]
fn validity_ending_before_it_starts_is_refused() {
    let spki = spki_der(5);
    let r = Certificate::builder()
        .with_subject(subject())
        .with_issuer(issuer())
        .with_validity_notbefore(time(100))
        .with_validity_notafter(time(99))
        .with_spki(&spki, EcdsaX962(Sha256))
        .build_tbs_with(vec![0; 20], time(0));
    assert!(matches!(r, Err(Error::Validation(ValidationErrorType::NotBeforeAfterNotAfter))));
}

#[test]
fn validity_of_a_single_instant_is_accepted() {
    let spki = spki_der(5);
    let r = Certificate::builder()
        .with_subject(subject())
        .with_issuer(issuer())
        .with_validity_notbefore(time(100))
        .with_validity_notafter(time(100))
        .with_spki(&spki, EcdsaX962(Sha256))
        .build_tbs_with(vec![0; 20], time(0));
    assert!(r.is_ok());
}

#[test]
fn negative_duration_is_refused_as_ending_before_start() {
    let spki = spki_der(5);
    let r = Certificate::builder()
        .with_subject(subject())
        .with_issuer(issuer())
        .with_validity_notbefore(time(100))
        .with_validity_duration(Duration::new(-10, 0).unwrap())
        .with_spki(&spki, EcdsaX962(Sha256))
        .build_tbs_with(vec![0; 20], time(0));
    assert!(matches!(r, Err(Error::Validation(ValidationErrorType::NotBeforeAfterNotAfter))));
}

#[test]
fn overflowing_duration_is_refused() {
    let spki = spki_der(5);
    let r = Certificate::builder()
        .with_subject(subject())
        .with_issuer(issuer())
        .with_validity_notbefore(time(100))
        .with_validity_duration(Duration::new(i64::MAX / 1000, 0).unwrap())
        .with_spki(&spki, EcdsaX962(Sha256))
        .build_tbs_with(vec![0; 20], time(0));
    assert!(matches!(r, Err(Error::Validation(ValidationErrorType::DurationOverflow))));
}

#[test]
fn subject_alternative_name_set_twice_is_refused() {
    let spki = spki_der(5);
    let r = Certificate::builder()
        .with_subject(subject())
        .with_issuer(issuer())
        .with_validity_notafter(time(20))
        .with_extensions(vec![ext(vec![2, 5, 29, 17])])
        .unwrap()
        .with_san_extension_from_strs(&["a.example"])
        .with_spki(&spki, EcdsaX962(Sha256))
        .build_tbs_with(vec![0; 20], time(0));
    match r {
        Err(Error::Validation(ValidationErrorType::DuplicateExtension(oid))) => assert_eq!(oid, vec![2, 5, 29, 17]),
        _ => panic!("expected a duplicate extension"),
    }
}

#[test]
fn duplicate_extension_is_refused() {
    let r = Certificate::builder().append_extensions(vec![ext(vec![1, 2]), ext(vec![1, 3]), ext(vec![1, 2])]);
    match r {
        Err(Error::Validation(ValidationErrorType::DuplicateExtension(oid))) => assert_eq!(oid, vec![1, 2]),
        _ => panic!("expected a duplicate extension"),
    }
}

#[test]
fn extension_already_present_is_refused() {
    let b = Certificate::builder().append_extensions(vec![ext(vec![1, 2])]).unwrap();
    let r = b.append_extensions(vec![ext(vec![1, 5]), ext(vec![1, 2])]);
    match r {
        Err(Error::Validation(ValidationErrorType::DuplicateExtension(oid))) => assert_eq!(oid, vec![1, 2]),
        _ => panic!("expected a duplicate extension"),
    }
}

#[test]
fn basic_constraints_extension_is_refused() {
    let r = Certificate::builder().with_extensions(vec![ext(vec![2, 5, 29, 19])]);
    match r {
        Err(Error::Validation(ValidationErrorType::DuplicateExtension(oid))) => assert_eq!(oid, vec![2, 5, 29, 19]),
        _ => panic!("expected a duplicate extension"),
    }
}

#[test]
fn with_extensions_replaces_earlier_ones() {
    let spki = spki_der(5);
    let tbs = Certificate::builder()
        .append_extensions(vec![ext(vec![1, 2])])
        .unwrap()
        .with_extensions(vec![ext(vec![1, 2]), ext(vec![1, 9])])
        .unwrap()
        .with_subject(subject())
        .with_issuer(issuer())
        .with_validity_notafter(time(20))
        .with_spki(&spki, EcdsaX962(Sha256))
        .build_tbs_with(vec![0; 20], time(0))
        .unwrap();
    let parsed = parse_tbs(&tbs);
    let oids: Vec<Vec<u64>> = parsed.extensions.iter().map(|e| e.oid.components().clone()).collect();
    assert_eq!(oids, vec![vec![1, 2], vec![1, 9], vec![2, 5, 29, 19]]);
}

#[test]
fn san_from_general_names_lists_them() {
    let spki = spki_der(5);
    let tbs = Certificate::builder()
        .with_san_extension_from_general_names(vec![
            AltName::DnsName("host.example".to_string()),
            AltName::IpAddress(vec![127, 0, 0, 1]),
            AltName::RegisteredID(vec![1, 2, 3]),
        ])
        .with_subject(subject())
        .with_issuer(issuer())
        .with_validity_notafter(time(20))
        .with_spki(&spki, EcdsaX962(Sha256))
        .build_tbs_with(vec![0; 20], time(0))
        .unwrap();
    let parsed = parse_tbs(&tbs);
    let san = pkix::x509::SubjectAltName::from_der(&parsed.extensions[1].value).unwrap();
    assert_eq!(san.names.len(), 3);
    assert_eq!(san.names[1], pkix::types::GeneralName::IpAddress(vec![127, 0, 0, 1]));
}

#[test]
fn build_tbs_draws_the_serial_from_the_provider() {
    let spki = spki_der(5);
    let tbs = Certificate::builder()
        .with_crypto_provider(TestProvider(FixedRng(0xee)))
        .with_subject(subject())
        .with_issuer(issuer())
        .with_validity_notafter(time(4_000_000_000))
        .with_spki(&spki, EcdsaX962(Sha256))
        .build_tbs()
        .unwrap();
    let parsed = parse_tbs(&tbs);
    let serial_bytes = parsed.serial.to_bytes_be();
    assert_eq!(serial_bytes[0], 0x6e);
    assert_eq!(serial_bytes.len(), 20);
}

#[test]
fn failing_randomness_fails_the_build() {
    let spki = spki_der(5);
    let r = Certificate::builder()
        .with_crypto_provider(FailingProvider(FailingRng))
        .with_subject(subject())
        .with_issuer(issuer())
        .with_validity_notafter(time(4_000_000_000))
        .with_spki(&spki, EcdsaX962(Sha256))
        .build_tbs();
    assert!(matches!(r, Err(Error::Pki(_))));
}

#[test]
fn self_signed_certificate_names_the_subject_as_issuer_and_the_key() {
    let mut key = TestKey { public: spki_der(7), kind: ECDSA };
    let cert = Certificate::builder()
        .with_crypto_provider(TestProvider(FixedRng(3)))
        .with_subject(subject())
        .with_validity_notafter(time(4_000_000_000))
        .with_self_signing_key(&mut key, EcdsaX962(Sha256))
        .unwrap()
        .build_cert()
        .unwrap();
    let parsed = pkix::x509::GenericCertificate::from_der(cert.as_slice()).unwrap();
    assert_eq!(parsed.tbscert.issuer, parsed.tbscert.subject);
    assert_eq!(parsed.tbscert.spki.value.as_ref(), &spki_der(7)[..]);
    assert_eq!(parsed.sigalg.value.as_ref(), &ECDSA_SHA256_DER[..]);
    let sig = parsed.sig.to_bytes();
    assert_eq!(&sig[..5], &spki_der(7)[..]);
    let tbs_der = pkix::ToDer::to_der(&parsed.tbscert);
    assert_eq!(&sig[5..], &tbs_der[..4]);
}

#[test]
fn signing_key_of_another_kind_is_refused() {
    let mut key = TestKey { public: spki_der(7), kind: RSA };
    let r = Certificate::builder()
        .with_crypto_provider(TestProvider(FixedRng(3)))
        .with_subject(subject())
        .with_validity_notafter(time(4_000_000_000))
        .with_self_signing_key(&mut key, EcdsaX962(Sha256));
    assert!(matches!(r, Err(Error::Validation(ValidationErrorType::PkAndSigAlgMismatch))));
}

#[test]
fn certificate_for_a_public_key_is_signed_by_the_signing_key() {
    let spki = spki_der(4);
    let mut signer = TestKey { public: spki_der(8), kind: RSA };
    let cert = Certificate::builder()
        .with_crypto_provider(TestProvider(FixedRng(3)))
        .with_subject(subject())
        .with_issuer(issuer())
        .with_validity_notafter(time(4_000_000_000))
        .with_spki(&spki, RsaPkcs15(Sha256))
        .with_signing_key(&mut signer)
        .unwrap()
        .build_cert()
        .unwrap();
    let parsed = pkix::x509::GenericCertificate::from_der(cert.as_slice()).unwrap();
    assert_eq!(parsed.tbscert.spki.value.as_ref(), &spki[..]);
    assert_eq!(&parsed.sig.to_bytes()[..5], &spki_der(8)[..]);
    assert_eq!(parsed.sigalg.value.as_ref(), &RSA_SHA256_DER[..]);
}

#[test]
fn signing_key_that_does_not_fit_the_algorithm_is_refused() {
    let spki = spki_der(4);
    let mut signer = TestKey { public: spki_der(8), kind: ECDSA };
    let r = Certificate::builder()
        .with_crypto_provider(TestProvider(FixedRng(3)))
        .with_subject(subject())
        .with_issuer(issuer())
        .with_validity_notafter(time(4_000_000_000))
        .with_spki(&spki, RsaPkcs15(Sha256))
        .with_signing_key(&mut signer);
    assert!(matches!(r, Err(Error::Validation(ValidationErrorType::PkAndSigAlgMismatch))));
}

#[test]
fn generated_self_signing_key_is_returned_and_named() {
    let (cert, key) = Certificate::builder()
        .with_crypto_provider(TestProvider(FixedRng(0x85)))
        .with_subject(subject())
        .with_validity_notafter(time(4_000_000_000))
        .with_generated_self_signing_key(EcdsaX962(Sha256))
        .build_cert_generate_key()
        .unwrap();
    let parsed = pkix::x509::GenericCertificate::from_der(cert.as_slice()).unwrap();
    assert_eq!(key.public, spki_der(5));
    assert_eq!(parsed.tbscert.spki.value.as_ref(), &key.public[..]);
    assert_eq!(parsed.tbscert.issuer, parsed.tbscert.subject);
    assert_eq!(&parsed.sig.to_bytes()[..5], &key.public[..]);
}

#[test]
fn generated_key_signs_a_certificate_for_a_given_public_key() {
    let spki = spki_der(2);
    let (cert, key) = Certificate::builder()
        .with_crypto_provider(TestProvider(FixedRng(0x06)))
        .with_subject(subject())
        .with_issuer(issuer())
        .with_validity_notafter(time(4_000_000_000))
        .with_spki(&spki, EcdsaX962(Sha256))
        .build_cert_generate_key()
        .unwrap();
    let parsed = pkix::x509::GenericCertificate::from_der(cert.as_slice()).unwrap();
    assert_eq!(parsed.tbscert.spki.value.as_ref(), &spki[..]);
    assert_eq!(&parsed.sig.to_bytes()[..5], &key.public[..]);
}

#[test]
fn generated_key_of_the_wrong_kind_is_refused() {
    let spki = spki_der(2);
    let r = Certificate::builder()
        .with_crypto_provider(TestProvider(FixedRng(0x06)))
        .with_subject(subject())
        .with_issuer(issuer())
        .with_validity_notafter(time(4_000_000_000))
        .with_spki(&spki, RsaPkcs15(Sha256))
        .build_cert_generate_key();
    assert!(matches!(r, Err(Error::Validation(ValidationErrorType::PkAndSigAlgMismatch))));
}

#[test]
fn certificate_bytes_are_available_in_several_ways() {
    let mut key = TestKey { public: spki_der(7), kind: ECDSA };
    let mut cert = Certificate::builder()
        .with_crypto_provider(TestProvider(FixedRng(3)))
        .with_subject(subject())
        .with_validity_notafter(time(4_000_000_000))
        .with_self_signing_key(&mut key, EcdsaX962(Sha256))
        .unwrap()
        .build_cert()
        .unwrap();
    let bytes = cert.as_slice().to_vec();
    assert_eq!(&cert[..], &bytes[..]);
    assert_eq!(bytes[0], 0x30);
    cert.as_mut_slice()[0] = 0x31;
    assert_eq!(cert[0], 0x31);
    let v: Vec<u8> = cert.into();
    assert_eq!(v[1..], bytes[1..]);
}

#[test]
fn csr_lists_attributes_then_the_extension_request() {
    let mut key = TestKey { public: spki_der(6), kind: ECDSA };
    let csr = Csr::builder()
        .with_crypto_provider(TestProvider(FixedRng(3)))
        .with_subject(subject())
        .with_attributes(vec![CsrAttribute { oid: vec![1, 2, 840, 113549, 1, 9, 7], value: vec![vec![0x0c, 0x01, 0x61]] }])
        .unwrap()
        .with_san_extension_from_strs(&["csr.example"])
        .with_self_signing_key(&mut key, EcdsaX962(Sha256))
        .unwrap()
        .build_csr()
        .unwrap();
    let parsed = pkix::pkcs10::DerCertificationRequest::from_der(csr.as_slice()).unwrap();
    assert_eq!(parsed.reqinfo.spki.value.as_ref(), &spki_der(6)[..]);
    assert_eq!(parsed.reqinfo.attributes.len(), 2);
    let oids: Vec<Vec<u64>> = parsed.reqinfo.attributes.iter().map(|a| a.oid.components().clone()).collect();
    assert!(oids.contains(&vec![1, 2, 840, 113549, 1, 9, 7]));
    assert!(oids.contains(&vec![1, 2, 840, 113549, 1, 9, 14]));
    let request = parsed.reqinfo.attributes.iter().find(|a| a.oid.components() == &vec![1, 2, 840, 113549, 1, 9, 14]).unwrap();
    let exts = pkix::types::Extensions::from_der(request.value[0].as_ref()).unwrap();
    let ext_oids: Vec<Vec<u64>> = exts.iter().map(|e| e.oid.components().clone()).collect();
    assert_eq!(ext_oids, vec![vec![2, 5, 29, 19], vec![2, 5, 29, 17]]);
    assert_eq!(parsed.sigalg.value.as_ref(), &ECDSA_SHA256_DER[..]);
    assert_eq!(&parsed.sig.to_bytes()[..5], &spki_der(6)[..]);
}

#[test]
fn extension_request_attribute_is_refused() {
    let r = Csr::builder().with_attributes(vec![CsrAttribute { oid: vec![1, 2, 840, 113549, 1, 9, 14], value: vec![] }]);
    match r {
        Err(Error::Validation(ValidationErrorType::DuplicateAttribute(oid))) => assert_eq!(oid, vec![1, 2, 840, 113549, 1, 9, 14]),
        _ => panic!("expected a duplicate attribute"),
    }
}

#[test]
fn duplicate_attribute_is_refused() {
    let b = Csr::builder().append_attributes(vec![CsrAttribute { oid: vec![1, 1], value: vec![] }]).unwrap();
    let r = b.append_attributes(vec![CsrAttribute { oid: vec![1, 1], value: vec![] }]);
    match r {
        Err(Error::Validation(ValidationErrorType::DuplicateAttribute(oid))) => assert_eq!(oid, vec![1, 1]),
        _ => panic!("expected a duplicate attribute"),
    }
}

#[test]
fn csr_with_subject_alternative_name_twice_is_refused() {
    let mut key = TestKey { public: spki_der(6), kind: ECDSA };
    let r = Csr::builder()
        .with_crypto_provider(TestProvider(FixedRng(3)))
        .with_subject(subject())
        .append_extensions(vec![ext(vec![2, 5, 29, 17])])
        .unwrap()
        .with_san_extension_from_strs(&["csr.example"])
        .with_self_signing_key(&mut key, EcdsaX962(Sha256))
        .unwrap()
        .build_csr();
    assert!(matches!(r, Err(Error::Validation(ValidationErrorType::DuplicateExtension(_)))));
}

#[test]
fn csr_with_generated_key_names_that_key() {
    let (csr, key) = Csr::builder()
        .with_crypto_provider(TestProvider(FixedRng(0x0b)))
        .with_subject(subject())
        .make_ca_certificate()
        .with_generated_self_signing_key(EcdsaX962(Sha256))
        .build_csr_generate_key()
        .unwrap();
    let parsed = pkix::pkcs10::DerCertificationRequest::from_der(csr.as_slice()).unwrap();
    assert_eq!(parsed.reqinfo.spki.value.as_ref(), &key.public[..]);
    assert_eq!(key.public, spki_der(0x0b));
    let v: Vec<u8> = csr.into();
    assert_eq!(v[0], 0x30);
}

#[test]
fn builders_start_empty() {
    let b: Builder<CertificateState> = Builder::default();
    let r = b.append_extensions(vec![]);
    assert!(r.is_ok());
    let c = Builder::<certbuilder::csr_builder::CsrState>::default().append_attributes(vec![]);
    assert!(c.is_ok());
}

#[test]
fn certificate_with_given_serial_and_time_wraps_the_same_tbs() {
    let spki = spki_der(4);
    let mut signer = TestKey { public: spki_der(8), kind: RSA };
    let builder = || {
        Certificate::builder()
            .with_subject(subject())
            .with_issuer(issuer())
            .with_validity_duration(Duration::new(60, 0).unwrap())
            .with_spki(&spki, RsaPkcs15(Sha256))
    };
    let tbs = builder().build_tbs_with(vec![0x42; 20], time(500)).unwrap();
    let cert = builder()
        .with_crypto_provider(TestProvider(FixedRng(3)))
        .with_signing_key(&mut signer)
        .unwrap()
        .build_cert_with(vec![0x42; 20], time(500))
        .unwrap();
    let parsed = pkix::x509::GenericCertificate::from_der(cert.as_slice()).unwrap();
    assert_eq!(pkix::ToDer::to_der(&parsed.tbscert), tbs.as_slice().to_vec());
    assert_eq!(parsed.tbscert.validity_notbefore.to_seconds_since_epoch(), 500);
    assert_eq!(parsed.tbscert.validity_notafter.to_seconds_since_epoch(), 560);
    let sig = parsed.sig.to_bytes();
    assert_eq!(&sig[..5], &spki_der(8)[..]);
    assert_eq!(&sig[5..], &tbs.as_slice()[..4]);
}

#[test]
fn certificate_with_validity_ending_before_start_is_refused() {
    let mut key = TestKey { public: spki_der(7), kind: ECDSA };
    let r = Certificate::builder()
        .with_crypto_provider(TestProvider(FixedRng(3)))
        .with_subject(subject())
        .with_validity_notafter(time(10))
        .with_self_signing_key(&mut key, EcdsaX962(Sha256))
        .unwrap()
        .build_cert_with(vec![0; 20], time(11));
    assert!(matches!(r, Err(Error::Validation(ValidationErrorType::NotBeforeAfterNotAfter))));
}

#[test]
fn only_self_signing_key_material_is_self_signed() {
    let mut key = TestKey { public: spki_der(7), kind: ECDSA };
    assert!(SelfSigningKeyMaterial::new(&mut key, EcdsaX962(Sha256)).is_self_signed());
    let spki = spki_der(4);
    let mut signer = TestKey { public: spki_der(8), kind: ECDSA };
    let material = CertificateKeyMaterial::new(SpkiKeyMaterial::new(&spki, EcdsaX962(Sha256)), &mut signer);
    assert!(!material.is_self_signed());
}

#[test]
fn serial_of_zero_bytes_is_made_positive() {
    let serial = serial_from_random(vec![0; 20]);
    assert_eq!(serial.len(), 20);
    assert!(serial[..19].iter().all(|b| *b == 0));
    assert_eq!(serial[19], 1);
    let serial2 = serial_from_random(vec![0x80; 1].into_iter().chain(vec![0; 19]).collect());
    assert_eq!(serial2[19], 1);
    assert_eq!(serial2[0], 0);
}

#[test]
fn assembling_passes_on_the_signing_error_or_wraps_the_signature() {
    let tbs = spki_der(1);
    let r = assemble_certificate(&tbs, &ECDSA_SHA256_DER, Err(Error::Pki("sign".to_string())));
    assert!(matches!(r, Err(Error::Pki(ref m)) if m == "sign"));
    let c = assemble_certificate(&tbs, &ECDSA_SHA256_DER, Ok(vec![1, 2, 3])).unwrap();
    let der = c.as_slice();
    // SEQUENCE { tbs, algorithm, BIT STRING with no unused bits holding the signature }
    assert_eq!(der[0], 0x30);
    assert_eq!(&der[2..7], &tbs[..]);
    assert_eq!(&der[7..19], &ECDSA_SHA256_DER[..]);
    assert_eq!(&der[19..], &[0x03, 0x04, 0x00, 1, 2, 3][..]);
    let q = assemble_request(&tbs, &ECDSA_SHA256_DER, Err(Error::Pki("sign".to_string())));
    assert!(matches!(q, Err(Error::Pki(_))));
}

#[test]
fn generated_key_that_cannot_export_fails_after_the_checks() {
    let conflict = Certificate::builder()
        .with_crypto_provider(TestProvider(FixedRng(0)))
        .with_subject(subject())
        .with_validity_notafter(time(4_000_000_000))
        .with_extensions(vec![ext(vec![2, 5, 29, 17])])
        .unwrap()
        .with_san_extension_from_strs(&["a.example"])
        .with_generated_self_signing_key(EcdsaX962(Sha256))
        .build_cert_generate_key();
    match conflict {
        Err(Error::Validation(ValidationErrorType::DuplicateExtension(oid))) => assert_eq!(oid, vec![2, 5, 29, 17]),
        _ => panic!("expected the duplicate extension before the export"),
    }
    let export = Certificate::builder()
        .with_crypto_provider(TestProvider(FixedRng(0)))
        .with_subject(subject())
        .with_validity_notafter(time(4_000_000_000))
        .with_generated_self_signing_key(EcdsaX962(Sha256))
        .build_cert_generate_key();
    assert!(matches!(export, Err(Error::Pki(_))));
}

#[test]
fn generation_errors_pass_through_unchanged() {
    let spki = spki_der(2);
    let r = Certificate::builder()
        .with_crypto_provider(TestProvider(FixedRng(3)))
        .with_subject(subject())
        .with_issuer(issuer())
        .with_validity_notafter(time(4_000_000_000))
        .with_spki(&spki, EcdsaX962(Sha256))
        .build_cert_with_generated_key(Err(Error::Pki("generation".to_string())));
    assert!(matches!(r, Err(Error::Pki(ref m)) if m == "generation"));
    let r = Certificate::builder()
        .with_crypto_provider(TestProvider(FixedRng(3)))
        .with_subject(subject())
        .with_validity_notafter(time(4_000_000_000))
        .with_generated_self_signing_key(EcdsaX962(Sha256))
        .build_cert_with_generated_key(Err(Error::Mbedtls(-1)));
    assert!(matches!(r, Err(Error::Mbedtls(-1))));
    let r = Csr::builder()
        .with_crypto_provider(TestProvider(FixedRng(3)))
        .with_subject(subject())
        .with_generated_self_signing_key(EcdsaX962(Sha256))
        .build_csr_with_generated_key(Err(Error::Mbedtls(-2)));
    assert!(matches!(r, Err(Error::Mbedtls(-2))));
}

#[test]
fn given_key_of_the_wrong_kind_is_refused() {
    let spki = spki_der(2);
    let r = Certificate::builder()
        .with_crypto_provider(TestProvider(FixedRng(3)))
        .with_subject(subject())
        .with_issuer(issuer())
        .with_validity_notafter(time(4_000_000_000))
        .with_spki(&spki, RsaPkcs15(Sha256))
        .build_cert_with_generated_key(Ok(TestKey { public: spki_der(9), kind: ECDSA }));
    assert!(matches!(r, Err(Error::Validation(ValidationErrorType::PkAndSigAlgMismatch))));
}

#[test]
fn csr_with_given_key_names_that_key() {
    let (csr, key) = Csr::builder()
        .with_crypto_provider(TestProvider(FixedRng(3)))
        .with_subject(subject())
        .with_generated_self_signing_key(EcdsaX962(Sha256))
        .build_csr_with_generated_key(Ok(TestKey { public: spki_der(11), kind: ECDSA }))
        .unwrap();
    let parsed = pkix::pkcs10::DerCertificationRequest::from_der(csr.as_slice()).unwrap();
    assert_eq!(parsed.reqinfo.spki.value.as_ref(), &key.public[..]);
    assert_eq!(key.public, spki_der(11));
}
