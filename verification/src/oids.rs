//! Object identifiers that the builders use.

use vstd::prelude::*;

verus! {

/// `id-ce-basicConstraints` (2.5.29.19).
pub open spec fn spec_basic_constraints_oid() -> Seq<u64> {
    seq![2u64, 5, 29, 19]
}

/// `id-ce-subjectAltName` (2.5.29.17).
pub open spec fn spec_subject_alt_name_oid() -> Seq<u64> {
    seq![2u64, 5, 29, 17]
}

/// PKCS#9 `extensionRequest` (1.2.840.113549.1.9.14).
pub open spec fn spec_extension_request_oid() -> Seq<u64> {
    seq![1u64, 2, 840, 113549, 1, 9, 14]
}

/// `id-at-countryName` (2.5.4.6).
pub open spec fn spec_country_name_oid() -> Seq<u64> {
    seq![2u64, 5, 4, 6]
}

/// `id-at-localityName` (2.5.4.7).
pub open spec fn spec_locality_name_oid() -> Seq<u64> {
    seq![2u64, 5, 4, 7]
}

/// `id-at-stateOrProvinceName` (2.5.4.8).
pub open spec fn spec_state_or_province_name_oid() -> Seq<u64> {
    seq![2u64, 5, 4, 8]
}

/// `id-at-organizationName` (2.5.4.10).
pub open spec fn spec_organization_name_oid() -> Seq<u64> {
    seq![2u64, 5, 4, 10]
}

/// `id-at-organizationalUnitName` (2.5.4.11).
pub open spec fn spec_organizational_unit_name_oid() -> Seq<u64> {
    seq![2u64, 5, 4, 11]
}

/// `id-at-commonName` (2.5.4.3).
pub open spec fn spec_common_name_oid() -> Seq<u64> {
    seq![2u64, 5, 4, 3]
}

/// `id-at-serialNumber` (2.5.4.5).
pub open spec fn spec_serial_number_oid() -> Seq<u64> {
    seq![2u64, 5, 4, 5]
}

pub fn basic_constraints_oid() -> (r: Vec<u64>)
    ensures r@ == spec_basic_constraints_oid(),
{
    let r: Vec<u64> = vec![2, 5, 29, 19];
    assert(r@ =~= spec_basic_constraints_oid());
    r
}

pub fn subject_alt_name_oid() -> (r: Vec<u64>)
    ensures r@ == spec_subject_alt_name_oid(),
{
    let r: Vec<u64> = vec![2, 5, 29, 17];
    assert(r@ =~= spec_subject_alt_name_oid());
    r
}

pub fn extension_request_oid() -> (r: Vec<u64>)
    ensures r@ == spec_extension_request_oid(),
{
    let r: Vec<u64> = vec![1, 2, 840, 113549, 1, 9, 14];
    assert(r@ =~= spec_extension_request_oid());
    r
}

pub fn country_name_oid() -> (r: Vec<u64>)
    ensures r@ == spec_country_name_oid(),
{
    let r: Vec<u64> = vec![2, 5, 4, 6];
    assert(r@ =~= spec_country_name_oid());
    r
}

pub fn locality_name_oid() -> (r: Vec<u64>)
    ensures r@ == spec_locality_name_oid(),
{
    let r: Vec<u64> = vec![2, 5, 4, 7];
    assert(r@ =~= spec_locality_name_oid());
    r
}

pub fn state_or_province_name_oid() -> (r: Vec<u64>)
    ensures r@ == spec_state_or_province_name_oid(),
{
    let r: Vec<u64> = vec![2, 5, 4, 8];
    assert(r@ =~= spec_state_or_province_name_oid());
    r
}

pub fn organization_name_oid() -> (r: Vec<u64>)
    ensures r@ == spec_organization_name_oid(),
{
    let r: Vec<u64> = vec![2, 5, 4, 10];
    assert(r@ =~= spec_organization_name_oid());
    r
}

pub fn organizational_unit_name_oid() -> (r: Vec<u64>)
    ensures r@ == spec_organizational_unit_name_oid(),
{
    let r: Vec<u64> = vec![2, 5, 4, 11];
    assert(r@ =~= spec_organizational_unit_name_oid());
    r
}

pub fn common_name_oid() -> (r: Vec<u64>)
    ensures r@ == spec_common_name_oid(),
{
    let r: Vec<u64> = vec![2, 5, 4, 3];
    assert(r@ =~= spec_common_name_oid());
    r
}

pub fn serial_number_oid() -> (r: Vec<u64>)
    ensures r@ == spec_serial_number_oid(),
{
    let r: Vec<u64> = vec![2, 5, 4, 5];
    assert(r@ =~= spec_serial_number_oid());
    r
}

/// Compares two object identifiers component by component.
pub fn oid_eq(a: &[u64], b: &[u64]) -> (r: bool)
    ensures r == (a@ == b@),
{
    if a.len() != b.len() {
        return false;
    }
    let mut i: usize = 0;
    while i < a.len()
        invariant
            a@.len() == b@.len(),
            0 <= i <= a@.len(),
            forall|j: int| 0 <= j < i ==> a@[j] == b@[j],
        decreases a@.len() - i,
    {
        if a[i] != b[i] {
            return false;
        }
        i = i + 1;
    }
    assert(a@ =~= b@);
    true
}

} // verus!
