use certbuilder::mbedtls_adapter::{MbedtlsHashMeta, MbedtlsSignatureMeta, SHA256_BYTE_LEN};
use certbuilder::time::{Duration, UtcDateTime};
use certbuilder::{Certificate, Csr, TbsCertificate, ValidationErrorType};

#[test]
fn rsa_signatures_are_as_long_as_the_modulus_in_bytes() {
    assert_eq!(MbedtlsSignatureMeta::rsa(2048).signature_max_len(), 256);
    assert_eq!(MbedtlsSignatureMeta::rsa(2049).signature_max_len(), 257);
    assert_eq!(MbedtlsSignatureMeta::rsa(1).signature_max_len(), 1);
    assert_eq!(MbedtlsSignatureMeta::rsa(0).signature_max_len(), 0);
    assert_eq!(MbedtlsSignatureMeta::rsa(usize::MAX).signature_max_len(), usize::MAX / 8 + 1);
}

#[test]
fn ecdsa_signature_length_is_the_given_maximum() {
    assert_eq!(MbedtlsSignatureMeta::ecdsa(141).signature_max_len(), 141);
}

#[test]
fn sha256_digests_have_32_bytes() {
    assert_eq!(SHA256_BYTE_LEN, 32);
    assert_eq!(MbedtlsHashMeta::sha256().hash_len(), 32);
}

#[test]
fn validation_messages() {
    assert_eq!(
        ValidationErrorType::NotBeforeAfterNotAfter.message(),
        "certificate is not valid at any point in time"
    );
    assert_eq!(
        ValidationErrorType::DurationOverflow.message(),
        "setting certificate validity period would overflow"
    );
    assert_eq!(
        ValidationErrorType::PkAndSigAlgMismatch.message(),
        "the signature algorithm does not match the provided private key"
    );
    assert_eq!(
        ValidationErrorType::DuplicateExtension(vec![2, 5, 29, 17]).message(),
        "extension with oid 2.5.29.17 appears multiple times"
    );
    assert_eq!(
        ValidationErrorType::DuplicateAttribute(vec![1, 2, 840, 113549, 1, 9, 14]).message(),
        "attribute with oid 1.2.840.113549.1.9.14 appears multiple times"
    );
}

#[test]
fn der_values_wrap_and_unwrap_their_bytes() {
    let bytes = vec![0x30, 0x03, 0x02, 0x01, 0x05];
    assert_eq!(Certificate::from_vec(bytes.clone()).into_vec(), bytes);
    assert_eq!(TbsCertificate::from_vec(bytes.clone()).as_slice(), &bytes[..]);
    let csr = Csr::from_vec(bytes.clone());
    assert_eq!(&*csr, &bytes[..]);
    let v: Vec<u8> = csr.into();
    assert_eq!(v, bytes);
}

#[test]
fn times_follow_chrono() {
    let t = UtcDateTime::from_timestamp(1_431_648_000, 5).unwrap();
    assert_eq!(t.seconds(), 1_431_648_000);
    assert_eq!(t.subsec_nanos(), 5);
    assert!(UtcDateTime::from_timestamp(i64::MAX, 0).is_none());
    assert!(UtcDateTime::from_timestamp(0, 2_000_000_000).is_none());
    let later = UtcDateTime::from_timestamp(1_431_648_000, 6).unwrap();
    assert!(later.is_after(&t));
    assert!(!t.is_after(&later));
    assert!(!t.is_after(&t));
    let d = Duration::new(-2, 500_000_000).unwrap();
    assert_eq!(d.seconds(), -2);
    assert_eq!(d.subsec_nanos(), 500_000_000);
    assert!(Duration::new(0, 1_000_000_000).is_none());
    let moved = t.checked_add(&d).unwrap();
    assert_eq!((moved.seconds(), moved.subsec_nanos()), (1_431_647_998, 500_000_005));
    let far = UtcDateTime::from_timestamp(8_000_000_000_000, 0).unwrap();
    let big = Duration::new(i64::MAX / 1000, 0).unwrap();
    assert!(far.checked_add(&big).is_none());
}

#[test]
fn now_is_a_point_chrono_represents() {
    let now = UtcDateTime::now();
    assert!(UtcDateTime::from_timestamp(now.seconds(), now.subsec_nanos()).is_some());
}

#[test]
fn chrono_ranges_are_as_stated() {
    assert!(UtcDateTime::from_timestamp(-8_334_601_228_800, 0).is_some());
    assert!(UtcDateTime::from_timestamp(-8_334_601_228_801, 999_999_999).is_none());
    assert!(UtcDateTime::from_timestamp(8_210_266_876_799, 999_999_999).is_some());
    assert!(UtcDateTime::from_timestamp(8_210_266_876_800, 0).is_none());
    assert!(UtcDateTime::from_timestamp(59, 1_500_000_000).is_some());
    assert!(UtcDateTime::from_timestamp(-1, 1_999_999_999).is_some());
    assert!(UtcDateTime::from_timestamp(58, 1_000_000_000).is_none());
    assert!(UtcDateTime::from_timestamp(59, 2_000_000_000).is_none());
    assert!(Duration::new(9_223_372_036_854_775, 807_000_000).is_some());
    assert!(Duration::new(9_223_372_036_854_775, 807_000_001).is_none());
    assert!(Duration::new(9_223_372_036_854_776, 0).is_none());
    assert!(Duration::new(-9_223_372_036_854_776, 193_000_000).is_some());
    assert!(Duration::new(-9_223_372_036_854_776, 192_999_999).is_none());
    assert!(Duration::new(-9_223_372_036_854_777, 999_999_999).is_none());
}
