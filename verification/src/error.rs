use vstd::prelude::*;
use vstd::string::*;

use crate::der::{oid_text, oid_to_string};

verus! {

/// An ASN.1 error as reported by the DER tooling.
#[verifier::external_type_specification]
#[verifier::external_body]
pub struct ExAsn1Error(pkix::ASN1Error);

/// The reasons for which a builder refuses its configuration.
#[derive(Debug)]
pub enum ValidationErrorType {
    /// The start of the validity period lies after its end.
    NotBeforeAfterNotAfter,
    /// Adding the validity duration to its start leaves the representable time range.
    DurationOverflow,
    /// The signature algorithm cannot be used with the algorithm of the given key.
    PkAndSigAlgMismatch,
    /// An extension with this object identifier would appear more than once.
    DuplicateExtension(Vec<u64>),
    /// An attribute with this object identifier would appear more than once.
    DuplicateAttribute(Vec<u64>),
}

/// Errors of this library.
#[derive(Debug)]
pub enum Error {
    /// A general failure, described by its message.
    Pki(String),
    /// The builder's configuration was refused.
    Validation(ValidationErrorType),
    /// A failure reported by the cryptographic backend, by its numeric code.
    Mbedtls(i32),
    /// A failure of ASN.1 processing.
    ASN1(pkix::ASN1Error),
}

/// The text that describes each refusal.
pub open spec fn spec_validation_message(e: ValidationErrorType) -> Seq<char> {
    match e {
        ValidationErrorType::NotBeforeAfterNotAfter => "certificate is not valid at any point in time"@,
        ValidationErrorType::DurationOverflow => "setting certificate validity period would overflow"@,
        ValidationErrorType::PkAndSigAlgMismatch => "the signature algorithm does not match the provided private key"@,
        ValidationErrorType::DuplicateExtension(oid) => "extension with oid "@ + oid_text(oid@) + " appears multiple times"@,
        ValidationErrorType::DuplicateAttribute(oid) => "attribute with oid "@ + oid_text(oid@) + " appears multiple times"@,
    }
}

impl ValidationErrorType {
    /// The text that describes the refusal.
    pub fn message(&self) -> (r: String)
        ensures r@ == spec_validation_message(*self),
    {
        match self {
            ValidationErrorType::NotBeforeAfterNotAfter => String::from_str("certificate is not valid at any point in time"),
            ValidationErrorType::DurationOverflow => String::from_str("setting certificate validity period would overflow"),
            ValidationErrorType::PkAndSigAlgMismatch => {
                String::from_str("the signature algorithm does not match the provided private key")
            },
            ValidationErrorType::DuplicateExtension(oid) => {
                let mut text = String::from_str("extension with oid ");
                text.append(oid_to_string(oid.as_slice()).as_str());
                text.append(" appears multiple times");
                text
            },
            ValidationErrorType::DuplicateAttribute(oid) => {
                let mut text = String::from_str("attribute with oid ");
                text.append(oid_to_string(oid.as_slice()).as_str());
                text.append(" appears multiple times");
                text
            },
        }
    }
}

} // verus!
