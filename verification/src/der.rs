//! DER encodings of the structures that the builders produce. The encoders themselves are those
//! of the `pkix` crate; each function here converts the library's values into `pkix`'s and
//! encodes them. Their results are named by the uninterpreted functions below: the contracts of
//! the builders say which structure was encoded from which values, not how DER lays it out.
//! `yasna`, which writes the object identifiers, panics on one that DER cannot encode; the
//! encoders that write identifiers require them to be encodable (`oid_encodable`).

use pkix::types as px;
use vstd::prelude::*;

use crate::time::UtcDateTime;
use crate::types::{
    attributes_encodable, extensions_encodable, general_names_encodable, name_encodable,
    attributes_view, extensions_view, general_names_view, CsrAttribute, CsrAttributeView, X509Extension, X509ExtensionView,
    AltName, AltNameView, DistinguishedName, NameEntryView, PcBit, TagClass, DerValue,
};

verus! {

#[verifier::external_type_specification]
#[verifier::external_body]
pub struct ExPkixObjectIdentifier(pkix::types::ObjectIdentifier);

#[verifier::external_type_specification]
#[verifier::external_body]
pub struct ExPkixTaggedDerValue(pkix::types::TaggedDerValue);

#[verifier::external_type_specification]
#[verifier::external_body]
pub struct ExPkixName(pkix::types::Name);

#[verifier::external_type_specification]
#[verifier::external_body]
pub struct ExPkixExtension(pkix::types::Extension);

#[verifier::external_type_specification]
#[verifier::external_body]
pub struct ExPkixAttribute<'a>(pkix::types::Attribute<'a>);

#[verifier::external_type_specification]
#[verifier::external_body]
pub struct ExPkixGeneralName<'a>(pkix::types::GeneralName<'a>);

#[verifier::external_type_specification]
#[verifier::external_body]
pub struct ExPkixDateTime(pkix::types::DateTime);

/// The DER encoding, by `pkix`, of a SubjectAltName extension value listing `names`.
pub uninterp spec fn subject_alt_name_der(names: Seq<AltNameView>) -> Seq<u8>;

/// The DER encoding, by `pkix`, of the sequence of extensions `extensions`.
pub uninterp spec fn extensions_der(extensions: Seq<X509ExtensionView>) -> Seq<u8>;

/// The DER encoding, by `pkix`, of a version 3 TBSCertificate with these fields. The serial
/// number is given by its big-endian bytes, the signature algorithm and the subject public key
/// info by their DER encodings, and the validity bounds as (seconds, nanoseconds) since the Unix
/// epoch.
pub uninterp spec fn tbs_certificate_der(
    serial: Seq<u8>,
    signature_algorithm: Seq<u8>,
    issuer: Seq<NameEntryView>,
    not_before: (i64, u32),
    not_after: (i64, u32),
    subject: Seq<NameEntryView>,
    spki: Seq<u8>,
    extensions: Seq<X509ExtensionView>,
) -> Seq<u8>;

/// The DER encoding, by `pkix`, of a Certificate with the DER-encoded TBSCertificate `tbs`, the
/// DER-encoded signature algorithm `signature_algorithm` and the signature bytes `signature`.
pub uninterp spec fn certificate_der(tbs: Seq<u8>, signature_algorithm: Seq<u8>, signature: Seq<u8>) -> Seq<u8>;

/// The DER encoding, by `pkix`, of a version 1 CertificationRequestInfo with these fields.
pub uninterp spec fn certification_request_info_der(
    subject: Seq<NameEntryView>,
    spki: Seq<u8>,
    attributes: Seq<CsrAttributeView>,
) -> Seq<u8>;

/// The DER encoding, by `pkix`, of a CertificationRequest with the DER-encoded
/// CertificationRequestInfo `info`, the DER-encoded signature algorithm and the signature bytes.
pub uninterp spec fn certification_request_der(info: Seq<u8>, signature_algorithm: Seq<u8>, signature: Seq<u8>) -> Seq<u8>;

/// The decimal digits of `n`, without leading zeros.
pub open spec fn decimal_text(n: nat) -> Seq<char>
    decreases n,
{
    if n < 10 {
        seq![(48 + n) as char]
    } else {
        decimal_text(n / 10).push((48 + n % 10) as char)
    }
}

/// The dotted decimal text of an object identifier, as `yasna` displays it: the components in
/// decimal, separated by dots.
pub open spec fn oid_text(oid: Seq<u64>) -> Seq<char>
    decreases oid.len(),
{
    if oid.len() == 0 {
        Seq::empty()
    } else if oid.len() == 1 {
        decimal_text(oid[0] as nat)
    } else {
        oid_text(oid.drop_last()) + seq!['.'] + decimal_text(oid.last() as nat)
    }
}

/// Converts an object identifier into `pkix`'s.
#[verifier::external_body]
fn to_pkix_oid(oid: &[u64]) -> px::ObjectIdentifier {
    px::ObjectIdentifier::from_slice(oid)
}

/// Converts a tagged DER value into `pkix`'s, one field for one field.
#[verifier::external_body]
fn to_pkix_tagged(v: &DerValue) -> px::TaggedDerValue {
    let class = match v.tag().tag_class {
        TagClass::Universal => pkix::yasna::TagClass::Universal,
        TagClass::Application => pkix::yasna::TagClass::Application,
        TagClass::ContextSpecific => pkix::yasna::TagClass::ContextSpecific,
        TagClass::Private => pkix::yasna::TagClass::Private,
    };
    let pc = match v.pcbit() {
        PcBit::Primitive => pkix::yasna::PCBit::Primitive,
        PcBit::Constructed => pkix::yasna::PCBit::Constructed,
    };
    let tag = pkix::yasna::Tag { tag_class: class, tag_number: v.tag().tag_number };
    px::TaggedDerValue::from_tag_pc_and_bytes(tag, pc, v.value().to_vec())
}

/// Converts a distinguished name into `pkix`'s, entry for entry.
#[verifier::external_body]
fn to_pkix_name(n: &DistinguishedName) -> px::Name {
    px::Name { value: n.value.iter().map(|e| (to_pkix_oid(&e.0), to_pkix_tagged(&e.1))).collect() }
}

/// Converts an extension into `pkix`'s.
#[verifier::external_body]
fn to_pkix_extension(e: &X509Extension) -> px::Extension {
    px::Extension { oid: to_pkix_oid(&e.oid), critical: e.critical, value: e.value.clone() }
}

/// Converts an attribute into `pkix`'s; each value is carried as the DER it holds.
#[verifier::external_body]
fn to_pkix_attribute(a: &CsrAttribute) -> px::Attribute<'static> {
    let value = a.value.iter().map(|v| px::DerSequence::from(v.clone())).collect();
    px::Attribute { oid: to_pkix_oid(&a.oid), value }
}

/// Converts a general name into `pkix`'s, variant for variant.
#[verifier::external_body]
fn to_pkix_general_name(g: &AltName) -> px::GeneralName<'static> {
    match g {
        AltName::OtherName(o, v) => px::GeneralName::OtherName(to_pkix_oid(o), to_pkix_tagged(v)),
        AltName::Rfc822Name(s) => px::GeneralName::Rfc822Name(s.clone().into()),
        AltName::DnsName(s) => px::GeneralName::DnsName(s.clone().into()),
        AltName::DirectoryName(n) => px::GeneralName::DirectoryName(to_pkix_name(n)),
        AltName::UniformResourceIdentifier(s) => px::GeneralName::UniformResourceIdentifier(s.clone().into()),
        AltName::IpAddress(a) => px::GeneralName::IpAddress(a.clone()),
        AltName::RegisteredID(o) => px::GeneralName::RegisteredID(to_pkix_oid(o)),
    }
}

/// Converts a point in time into `pkix`'s. The point is one that `chrono` represents.
#[verifier::external_body]
fn to_pkix_datetime(t: &UtcDateTime) -> px::DateTime {
    chrono::DateTime::from_timestamp(t.seconds(), t.subsec_nanos()).unwrap().into()
}

/// Encodes, through `pkix`, the value of a SubjectAltName extension that lists `names`.
#[verifier::external_body]
pub(crate) fn encode_subject_alt_name(names: &[AltName]) -> (r: Vec<u8>)
    requires general_names_encodable(general_names_view(names@)),
    ensures r@ == subject_alt_name_der(general_names_view(names@)),
{
    let names = px::GeneralNames(names.iter().map(to_pkix_general_name).collect());
    pkix::ToDer::to_der(&pkix::x509::SubjectAltName { names })
}

/// Encodes, through `pkix`, a sequence of extensions. The encoding starts with the identifier
/// octet of the SEQUENCE, so it is never empty.
#[verifier::external_body]
pub(crate) fn encode_extensions(extensions: &[X509Extension]) -> (r: Vec<u8>)
    requires extensions_encodable(extensions_view(extensions@)),
    ensures
        r@ == extensions_der(extensions_view(extensions@)),
        r@.len() > 0,
{
    pkix::ToDer::to_der(&px::Extensions(extensions.iter().map(to_pkix_extension).collect()))
}

/// Encodes, through `pkix`, a version 3 TBSCertificate.
#[verifier::external_body]
pub(crate) fn encode_tbs_certificate(
    serial: &[u8],
    signature_algorithm: &[u8],
    issuer: &DistinguishedName,
    not_before: &UtcDateTime,
    not_after: &UtcDateTime,
    subject: &DistinguishedName,
    spki: &[u8],
    extensions: &[X509Extension],
) -> (r: Vec<u8>)
    requires
        name_encodable(issuer@),
        name_encodable(subject@),
        extensions_encodable(extensions_view(extensions@)),
    ensures
        r@ == tbs_certificate_der(serial@, signature_algorithm@, issuer@, not_before@, not_after@,
            subject@, spki@, extensions_view(extensions@)),
{
    pkix::ToDer::to_der(&pkix::x509::TbsCertificate {
        version: pkix::x509::TBS_CERTIFICATE_V3,
        serial: pkix::num_bigint::BigUint::from_bytes_be(serial),
        sigalg: px::DerSequence::from(signature_algorithm),
        issuer: to_pkix_name(issuer),
        validity_notbefore: to_pkix_datetime(not_before),
        validity_notafter: to_pkix_datetime(not_after),
        subject: to_pkix_name(subject),
        spki: px::DerSequence::from(spki),
        extensions: extensions.iter().map(to_pkix_extension).collect(),
    })
}

/// Encodes, through `pkix`, a Certificate from its DER-encoded parts and its signature.
#[verifier::external_body]
pub(crate) fn encode_certificate(tbs: &[u8], signature_algorithm: &[u8], signature: &[u8]) -> (r: Vec<u8>)
    ensures r@ == certificate_der(tbs@, signature_algorithm@, signature@),
{
    pkix::ToDer::to_der(&pkix::x509::Certificate {
        tbscert: px::DerSequence::from(tbs),
        sigalg: px::DerSequence::from(signature_algorithm),
        sig: pkix::bit_vec::BitVec::from_bytes(signature),
    })
}

/// Encodes, through `pkix`, a version 1 CertificationRequestInfo.
#[verifier::external_body]
pub(crate) fn encode_certification_request_info(subject: &DistinguishedName, spki: &[u8], attributes: &[CsrAttribute]) -> (r: Vec<u8>)
    requires
        name_encodable(subject@),
        attributes_encodable(attributes_view(attributes@)),
    ensures r@ == certification_request_info_der(subject@, spki@, attributes_view(attributes@)),
{
    pkix::ToDer::to_der(&pkix::pkcs10::CertificationRequestInfo {
        subject: to_pkix_name(subject),
        spki: px::DerSequence::from(spki),
        attributes: attributes.iter().map(to_pkix_attribute).collect(),
    })
}

/// Encodes, through `pkix`, a CertificationRequest from its DER-encoded parts and its signature.
#[verifier::external_body]
pub(crate) fn encode_certification_request(info: &[u8], signature_algorithm: &[u8], signature: &[u8]) -> (r: Vec<u8>)
    ensures r@ == certification_request_der(info@, signature_algorithm@, signature@),
{
    pkix::ToDer::to_der(&pkix::pkcs10::CertificationRequest {
        reqinfo: px::DerSequence::from(info),
        sigalg: px::DerSequence::from(signature_algorithm),
        sig: pkix::bit_vec::BitVec::from_bytes(signature),
    })
}

/// The dotted decimal text of an object identifier, through `yasna`'s `Display`.
#[verifier::external_body]
pub(crate) fn oid_to_string(oid: &[u64]) -> (r: String)
    ensures r@ == oid_text(oid@),
{
    to_pkix_oid(oid).to_string()
}

} // verus!
