//! Building distinguished names, for the subject and the issuer of certificates and requests.

use vstd::prelude::*;
use vstd::string::*;
use vstd::std_specs::convert::FromSpec;
use vstd::utf8::encode_utf8;

use crate::oids::{
    common_name_oid, country_name_oid, locality_name_oid, organization_name_oid, organizational_unit_name_oid,
    serial_number_oid, spec_common_name_oid, spec_country_name_oid, spec_locality_name_oid,
    spec_organization_name_oid, spec_organizational_unit_name_oid, spec_serial_number_oid,
    spec_state_or_province_name_oid, state_or_province_name_oid,
};
use crate::types::{tag_utf8string, spec_tag_utf8string, DerValue, DerValueView, DistinguishedName, NameEntryView, PcBit};

verus! {

/// The kinds of distinguished name entries that the builder knows by name, and entries of any
/// other attribute type.
#[derive(Debug)]
#[non_exhaustive]
pub enum DnType {
    CountryName,
    LocalityName,
    StateOrProvinceName,
    OrganizationName,
    OrganizationalUnitName,
    CommonName,
    Serial,
    /// An entry of the attribute type with this object identifier; its value need not be a
    /// string.
    CustomType(Vec<u64>),
}

/// The attribute type of each kind of entry.
pub open spec fn spec_dn_type_oid(dn_type: DnType) -> Seq<u64> {
    match dn_type {
        DnType::CountryName => spec_country_name_oid(),
        DnType::LocalityName => spec_locality_name_oid(),
        DnType::StateOrProvinceName => spec_state_or_province_name_oid(),
        DnType::OrganizationName => spec_organization_name_oid(),
        DnType::OrganizationalUnitName => spec_organizational_unit_name_oid(),
        DnType::CommonName => spec_common_name_oid(),
        DnType::Serial => spec_serial_number_oid(),
        DnType::CustomType(oid) => oid@,
    }
}

fn dn_type_to_oid(dn_type: DnType) -> (r: Vec<u64>)
    ensures r@ == spec_dn_type_oid(dn_type),
{
    match dn_type {
        DnType::CountryName => country_name_oid(),
        DnType::LocalityName => locality_name_oid(),
        DnType::StateOrProvinceName => state_or_province_name_oid(),
        DnType::OrganizationName => organization_name_oid(),
        DnType::OrganizationalUnitName => organizational_unit_name_oid(),
        DnType::CommonName => common_name_oid(),
        DnType::Serial => serial_number_oid(),
        DnType::CustomType(oid_data) => oid_data,
    }
}

/// The value of an entry given as text: a UTF8String holding the text's UTF-8 encoding.
pub open spec fn spec_utf8_value(text: Seq<char>) -> DerValueView {
    DerValueView { tag: spec_tag_utf8string(), pcbit: PcBit::Primitive, value: encode_utf8(text) }
}

/// The entry that `add_dn` appends for `dn_type` and `text`.
pub open spec fn spec_dn_entry(dn_type: DnType, text: Seq<char>) -> NameEntryView {
    (spec_dn_type_oid(dn_type), spec_utf8_value(text))
}

/// The entries that appending each of `texts` under the type `oid` gives, in order.
pub open spec fn spec_text_entries(oid: Seq<u64>, texts: Seq<String>) -> Seq<NameEntryView> {
    texts.map_values(|t: String| (oid, spec_utf8_value(t@)))
}

/// The entries that appending each of `values` under the type `oid` gives, in order.
pub open spec fn spec_value_entries(oid: Seq<u64>, values: Seq<DerValue>) -> Seq<NameEntryView> {
    values.map_values(|v: DerValue| (oid, v@))
}

/// State of a name builder to which no entry has been added.
#[derive(Debug, Clone, Copy, Default)]
pub struct NoDnSet;

/// State of a name builder that holds a name.
#[derive(Debug)]
pub struct WithDnSet(DistinguishedName);

/// Builder of distinguished names. Entries are kept in the order in which they were added.
#[derive(Debug)]
pub struct NameBuilder<D = NoDnSet> {
    dn: D,
}

impl NameBuilder<NoDnSet> {
    /// A builder without entries.
    pub fn new() -> (r: Self)
        ensures r.spec_dn() == Seq::<NameEntryView>::empty(),
    {
        Self { dn: NoDnSet }
    }
}

impl Default for NameBuilder<NoDnSet> {
    fn default() -> (r: Self)
        ensures r.spec_dn() == Seq::<NameEntryView>::empty(),
    {
        Self::new()
    }
}

impl NameBuilder<WithDnSet> {
    /// The entries of the name built so far.
    pub closed spec fn entries(&self) -> Seq<NameEntryView> {
        self.dn.0@
    }
}

/// Builders that can hold entries: either none yet, or some.
pub trait InitDn: Sized {
    /// The entries held so far.
    spec fn spec_dn(&self) -> Seq<NameEntryView>;

    /// The same builder, in the state that holds a name.
    fn init_dn(self) -> (r: NameBuilder<WithDnSet>)
        ensures r.entries() == self.spec_dn();
}

impl InitDn for NameBuilder<NoDnSet> {
    open spec fn spec_dn(&self) -> Seq<NameEntryView> {
        Seq::empty()
    }

    fn init_dn(self) -> (r: NameBuilder<WithDnSet>) {
        NameBuilder { dn: WithDnSet(DistinguishedName::empty()) }
    }
}

impl InitDn for NameBuilder<WithDnSet> {
    open spec fn spec_dn(&self) -> Seq<NameEntryView> {
        self.entries()
    }

    fn init_dn(self) -> (r: NameBuilder<WithDnSet>) {
        self
    }
}

impl NameBuilder<WithDnSet> {
    fn push_entry(self, oid: Vec<u64>, value: DerValue) -> (r: NameBuilder<WithDnSet>)
        ensures r.entries() == self.entries().push((oid@, value@)),
    {
        let NameBuilder { dn: WithDnSet(mut name) } = self;
        name.push(oid, value);
        NameBuilder { dn: WithDnSet(name) }
    }

    fn push_text(self, dn_type: DnType, dn_data: String) -> (r: NameBuilder<WithDnSet>)
        ensures r.entries() == self.entries().push(spec_dn_entry(dn_type, dn_data@)),
    {
        let bytes = dn_data.as_str().as_bytes_vec();
        let value = DerValue::from_tag_and_bytes(tag_utf8string(), bytes);
        self.push_entry(dn_type_to_oid(dn_type), value)
    }

    fn push_texts(self, oid: Vec<u64>, dn_iter: Vec<String>) -> (r: NameBuilder<WithDnSet>)
        ensures r.entries() == self.entries() + spec_text_entries(oid@, dn_iter@),
    {
        let ghost start = self.entries();
        let mut b = self;
        let mut i: usize = 0;
        while i < dn_iter.len()
            invariant
                0 <= i <= dn_iter@.len(),
                b.entries() == start + spec_text_entries(oid@, dn_iter@).take(i as int),
            decreases dn_iter@.len() - i,
        {
            let text = dn_iter[i].clone();
            b = b.push_text(DnType::CustomType(copy_oid_vec(&oid)), text);
            assert(spec_text_entries(oid@, dn_iter@).take(i + 1)
                =~= spec_text_entries(oid@, dn_iter@).take(i as int).push(spec_text_entries(oid@, dn_iter@)[i as int]));
            i = i + 1;
        }
        assert(spec_text_entries(oid@, dn_iter@).take(i as int) =~= spec_text_entries(oid@, dn_iter@));
        b
    }

    fn push_values(self, oid: Vec<u64>, der_value_iter: Vec<DerValue>) -> (r: NameBuilder<WithDnSet>)
        ensures r.entries() == self.entries() + spec_value_entries(oid@, der_value_iter@),
    {
        let ghost start = self.entries();
        let mut b = self;
        let mut i: usize = 0;
        while i < der_value_iter.len()
            invariant
                0 <= i <= der_value_iter@.len(),
                b.entries() == start + spec_value_entries(oid@, der_value_iter@).take(i as int),
            decreases der_value_iter@.len() - i,
        {
            let value = der_value_iter[i].duplicate();
            b = b.push_entry(copy_oid_vec(&oid), value);
            assert(spec_value_entries(oid@, der_value_iter@).take(i + 1)
                =~= spec_value_entries(oid@, der_value_iter@).take(i as int).push(spec_value_entries(oid@, der_value_iter@)[i as int]));
            i = i + 1;
        }
        assert(spec_value_entries(oid@, der_value_iter@).take(i as int) =~= spec_value_entries(oid@, der_value_iter@));
        b
    }
}

fn copy_oid_vec(v: &Vec<u64>) -> (r: Vec<u64>)
    ensures r@ == v@,
{
    crate::types::copy_oid(v)
}

impl<D> NameBuilder<D> where Self: InitDn {
    /// Appends an entry of type `dn_type` whose value is the UTF8String `dn_data`.
    pub fn add_dn(self, dn_type: DnType, dn_data: String) -> (r: NameBuilder<WithDnSet>)
        ensures r.entries() == self.spec_dn().push(spec_dn_entry(dn_type, dn_data@)),
    {
        self.init_dn().push_text(dn_type, dn_data)
    }

    pub fn add_country_name(self, dn_data: String) -> (r: NameBuilder<WithDnSet>)
        ensures r.entries() == self.spec_dn().push(spec_dn_entry(DnType::CountryName, dn_data@)),
    {
        self.add_dn(DnType::CountryName, dn_data)
    }

    pub fn add_locality_name(self, dn_data: String) -> (r: NameBuilder<WithDnSet>)
        ensures r.entries() == self.spec_dn().push(spec_dn_entry(DnType::LocalityName, dn_data@)),
    {
        self.add_dn(DnType::LocalityName, dn_data)
    }

    pub fn add_state_or_province_name(self, dn_data: String) -> (r: NameBuilder<WithDnSet>)
        ensures r.entries() == self.spec_dn().push(spec_dn_entry(DnType::StateOrProvinceName, dn_data@)),
    {
        self.add_dn(DnType::StateOrProvinceName, dn_data)
    }

    pub fn add_organization_name(self, dn_data: String) -> (r: NameBuilder<WithDnSet>)
        ensures r.entries() == self.spec_dn().push(spec_dn_entry(DnType::OrganizationName, dn_data@)),
    {
        self.add_dn(DnType::OrganizationName, dn_data)
    }

    pub fn add_organizational_unit_name(self, dn_data: String) -> (r: NameBuilder<WithDnSet>)
        ensures r.entries() == self.spec_dn().push(spec_dn_entry(DnType::OrganizationalUnitName, dn_data@)),
    {
        self.add_dn(DnType::OrganizationalUnitName, dn_data)
    }

    pub fn add_common_name(self, dn_data: String) -> (r: NameBuilder<WithDnSet>)
        ensures r.entries() == self.spec_dn().push(spec_dn_entry(DnType::CommonName, dn_data@)),
    {
        self.add_dn(DnType::CommonName, dn_data)
    }

    pub fn add_serial_name(self, dn_data: String) -> (r: NameBuilder<WithDnSet>)
        ensures r.entries() == self.spec_dn().push(spec_dn_entry(DnType::Serial, dn_data@)),
    {
        self.add_dn(DnType::Serial, dn_data)
    }

    pub fn add_country_name_iter(self, dn_iter: Vec<String>) -> (r: NameBuilder<WithDnSet>)
        ensures r.entries() == self.spec_dn() + spec_text_entries(spec_country_name_oid(), dn_iter@),
    {
        self.init_dn().push_texts(country_name_oid(), dn_iter)
    }

    pub fn add_locality_name_iter(self, dn_iter: Vec<String>) -> (r: NameBuilder<WithDnSet>)
        ensures r.entries() == self.spec_dn() + spec_text_entries(spec_locality_name_oid(), dn_iter@),
    {
        self.init_dn().push_texts(locality_name_oid(), dn_iter)
    }

    pub fn add_state_or_province_name_iter(self, dn_iter: Vec<String>) -> (r: NameBuilder<WithDnSet>)
        ensures r.entries() == self.spec_dn() + spec_text_entries(spec_state_or_province_name_oid(), dn_iter@),
    {
        self.init_dn().push_texts(state_or_province_name_oid(), dn_iter)
    }

    pub fn add_organization_name_iter(self, dn_iter: Vec<String>) -> (r: NameBuilder<WithDnSet>)
        ensures r.entries() == self.spec_dn() + spec_text_entries(spec_organization_name_oid(), dn_iter@),
    {
        self.init_dn().push_texts(organization_name_oid(), dn_iter)
    }

    pub fn add_organizational_unit_name_iter(self, dn_iter: Vec<String>) -> (r: NameBuilder<WithDnSet>)
        ensures r.entries() == self.spec_dn() + spec_text_entries(spec_organizational_unit_name_oid(), dn_iter@),
    {
        self.init_dn().push_texts(organizational_unit_name_oid(), dn_iter)
    }

    pub fn add_common_name_iter(self, dn_iter: Vec<String>) -> (r: NameBuilder<WithDnSet>)
        ensures r.entries() == self.spec_dn() + spec_text_entries(spec_common_name_oid(), dn_iter@),
    {
        self.init_dn().push_texts(common_name_oid(), dn_iter)
    }

    pub fn add_serial_name_iter(self, dn_iter: Vec<String>) -> (r: NameBuilder<WithDnSet>)
        ensures r.entries() == self.spec_dn() + spec_text_entries(spec_serial_number_oid(), dn_iter@),
    {
        self.init_dn().push_texts(serial_number_oid(), dn_iter)
    }

    /// Appends an entry of the attribute type `oid` with the value `tagged_der_value` as it is.
    pub fn add_custom_oid(self, oid: Vec<u64>, tagged_der_value: DerValue) -> (r: NameBuilder<WithDnSet>)
        ensures r.entries() == self.spec_dn().push((oid@, tagged_der_value@)),
    {
        self.init_dn().push_entry(oid, tagged_der_value)
    }

    /// Appends one entry of the attribute type `oid` for each of `der_value_iter`, in order.
    pub fn add_custom_oid_iter(self, oid: Vec<u64>, der_value_iter: Vec<DerValue>) -> (r: NameBuilder<WithDnSet>)
        ensures r.entries() == self.spec_dn() + spec_value_entries(oid@, der_value_iter@),
    {
        self.init_dn().push_values(oid, der_value_iter)
    }
}

/// The name of the subject of a certificate or request.
#[derive(Debug)]
pub struct Subject(pub(crate) DistinguishedName);

/// The name of the issuer of a certificate.
#[derive(Debug)]
pub struct Issuer(pub(crate) DistinguishedName);

impl View for Subject {
    type V = Seq<NameEntryView>;

    closed spec fn view(&self) -> Seq<NameEntryView> {
        self.0@
    }
}

impl View for Issuer {
    type V = Seq<NameEntryView>;

    closed spec fn view(&self) -> Seq<NameEntryView> {
        self.0@
    }
}

impl Subject {
    pub fn duplicate(&self) -> (r: Self)
        ensures r@ == self@,
    {
        Subject(self.0.duplicate())
    }

    /// The subject with the entries of `value`.
    pub fn from_name(value: DistinguishedName) -> (r: Self)
        ensures r@ == value@,
    {
        Subject(value)
    }

    /// The subject with the entries of the issuer `value`.
    pub fn from_issuer(value: Issuer) -> (r: Self)
        ensures r@ == value@,
    {
        Subject(value.0)
    }

    pub fn name(&self) -> (r: &DistinguishedName)
        ensures r@ == self@,
    {
        &self.0
    }
}

impl Issuer {
    pub fn duplicate(&self) -> (r: Self)
        ensures r@ == self@,
    {
        Issuer(self.0.duplicate())
    }

    /// The issuer with the entries of `value`.
    pub fn from_name(value: DistinguishedName) -> (r: Self)
        ensures r@ == value@,
    {
        Issuer(value)
    }

    /// The issuer with the entries of the subject `value`.
    pub fn from_subject(value: Subject) -> (r: Self)
        ensures r@ == value@,
    {
        Issuer(value.0)
    }

    pub fn name(&self) -> (r: &DistinguishedName)
        ensures r@ == self@,
    {
        &self.0
    }
}

impl From<Issuer> for Subject {
    fn from(value: Issuer) -> (r: Self) {
        Subject(value.0)
    }
}

impl vstd::std_specs::convert::FromSpecImpl<Issuer> for Subject {
    open spec fn obeys_from_spec() -> bool {
        true
    }

    closed spec fn from_spec(v: Issuer) -> Subject {
        Subject(v.0)
    }
}

impl From<Subject> for Issuer {
    fn from(value: Subject) -> (r: Self) {
        Issuer(value.0)
    }
}

impl vstd::std_specs::convert::FromSpecImpl<Subject> for Issuer {
    open spec fn obeys_from_spec() -> bool {
        true
    }

    closed spec fn from_spec(v: Subject) -> Issuer {
        Issuer(v.0)
    }
}

impl From<DistinguishedName> for Subject {
    fn from(value: DistinguishedName) -> (r: Self) {
        Subject(value)
    }
}

impl vstd::std_specs::convert::FromSpecImpl<DistinguishedName> for Subject {
    open spec fn obeys_from_spec() -> bool {
        true
    }

    closed spec fn from_spec(v: DistinguishedName) -> Subject {
        Subject(v)
    }
}

impl From<DistinguishedName> for Issuer {
    fn from(value: DistinguishedName) -> (r: Self) {
        Issuer(value)
    }
}

impl vstd::std_specs::convert::FromSpecImpl<DistinguishedName> for Issuer {
    open spec fn obeys_from_spec() -> bool {
        true
    }

    closed spec fn from_spec(v: DistinguishedName) -> Issuer {
        Issuer(v)
    }
}

impl NameBuilder<WithDnSet> {
    /// The built name, as the name of a subject.
    pub fn build_subject(self) -> (r: Subject)
        ensures r@ == self.entries(),
    {
        Subject::from_name(self.build_name())
    }

    /// The built name, as the name of an issuer.
    pub fn build_issuer(self) -> (r: Issuer)
        ensures r@ == self.entries(),
    {
        Issuer::from_name(self.build_name())
    }

    /// The built name.
    pub fn build_name(self) -> (r: DistinguishedName)
        ensures r@ == self.entries(),
    {
        self.dn.0
    }
}

/// Turning an issuer into a subject, or a subject into an issuer, keeps the entries of the
/// name, and turning one into the other and back gives the same value.
pub proof fn lemma_subject_issuer_round_trip(subject: Subject, issuer: Issuer, name: DistinguishedName)
    ensures
        <Subject as FromSpec<Issuer>>::from_spec(issuer)@ == issuer@,
        <Issuer as FromSpec<Subject>>::from_spec(subject)@ == subject@,
        <Subject as FromSpec<Issuer>>::from_spec(<Issuer as FromSpec<Subject>>::from_spec(subject)) == subject,
        <Issuer as FromSpec<Subject>>::from_spec(<Subject as FromSpec<Issuer>>::from_spec(issuer)) == issuer,
        <Subject as FromSpec<DistinguishedName>>::from_spec(name)@ == name@,
        <Issuer as FromSpec<DistinguishedName>>::from_spec(name)@ == name@,
{
}

/// Adding several texts under one type at once gives the entries that adding them one after the
/// other gives: the entries for `texts` followed by `text` are those for `texts` with the entry
/// for `text` appended.
pub proof fn lemma_text_entries_one_by_one(oid: Seq<u64>, texts: Seq<String>, text: String)
    ensures
        spec_text_entries(oid, texts.push(text)) == spec_text_entries(oid, texts).push((oid, spec_utf8_value(text@))),
        spec_text_entries(oid, Seq::<String>::empty()) == Seq::<NameEntryView>::empty(),
{
    assert(spec_text_entries(oid, texts.push(text)) =~= spec_text_entries(oid, texts).push((oid, spec_utf8_value(text@))));
    assert(spec_text_entries(oid, Seq::<String>::empty()) =~= Seq::<NameEntryView>::empty());
}

/// Adding several values under one type at once gives the entries that adding them one after
/// the other gives.
pub proof fn lemma_value_entries_one_by_one(oid: Seq<u64>, values: Seq<DerValue>, value: DerValue)
    ensures
        spec_value_entries(oid, values.push(value)) == spec_value_entries(oid, values).push((oid, value@)),
        spec_value_entries(oid, Seq::<DerValue>::empty()) == Seq::<NameEntryView>::empty(),
{
    assert(spec_value_entries(oid, values.push(value)) =~= spec_value_entries(oid, values).push((oid, value@)));
    assert(spec_value_entries(oid, Seq::<DerValue>::empty()) =~= Seq::<NameEntryView>::empty());
}

} // verus!
