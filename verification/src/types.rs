//! The values that certificates, requests and names are made of: object identifiers, tagged DER
//! values, distinguished names, extensions, attributes and general names.

use vstd::prelude::*;

verus! {

/// Copies a byte string.
pub fn copy_bytes(v: &Vec<u8>) -> (r: Vec<u8>)
    ensures r@ == v@,
{
    let r = v.clone();
    assert(r@ =~= v@);
    r
}

/// Copies an object identifier.
pub fn copy_oid(v: &Vec<u64>) -> (r: Vec<u64>)
    ensures r@ == v@,
{
    let r = v.clone();
    assert(r@ =~= v@);
    r
}

/// The class of an ASN.1 tag.
#[derive(Debug, Clone, Copy, PartialEq, Eq, Structural)]
pub enum TagClass {
    Universal,
    Application,
    ContextSpecific,
    Private,
}

/// An ASN.1 tag: its class and number.
#[derive(Debug, Clone, Copy, PartialEq, Eq, Structural)]
pub struct Tag {
    pub tag_class: TagClass,
    pub tag_number: u64,
}

/// Whether an encoding is primitive or constructed.
#[derive(Debug, Clone, Copy, PartialEq, Eq, Structural)]
pub enum PcBit {
    Primitive,
    Constructed,
}

/// The universal tag of UTF8String.
pub open spec fn spec_tag_utf8string() -> Tag {
    Tag { tag_class: TagClass::Universal, tag_number: 12 }
}

/// The universal tag of SEQUENCE.
pub open spec fn spec_tag_sequence() -> Tag {
    Tag { tag_class: TagClass::Universal, tag_number: 16 }
}

/// The universal tag of SET.
pub open spec fn spec_tag_set() -> Tag {
    Tag { tag_class: TagClass::Universal, tag_number: 17 }
}

pub fn tag_utf8string() -> (r: Tag)
    ensures r == spec_tag_utf8string(),
{
    Tag { tag_class: TagClass::Universal, tag_number: 12 }
}

/// The value of a DER element: its tag, its primitive/constructed bit and its contents.
#[derive(Debug)]
pub struct DerValue {
    tag: Tag,
    pcbit: PcBit,
    value: Vec<u8>,
}

/// The mathematical value of a [DerValue].
pub struct DerValueView {
    pub tag: Tag,
    pub pcbit: PcBit,
    pub value: Seq<u8>,
}

impl View for DerValue {
    type V = DerValueView;

    closed spec fn view(&self) -> DerValueView {
        DerValueView { tag: self.tag, pcbit: self.pcbit, value: self.value@ }
    }
}

/// The primitive/constructed bit that goes with a tag: SEQUENCE and SET are constructed, every
/// other tag primitive.
pub open spec fn spec_default_pcbit(tag: Tag) -> PcBit {
    if tag == spec_tag_sequence() || tag == spec_tag_set() {
        PcBit::Constructed
    } else {
        PcBit::Primitive
    }
}

impl DerValue {
    /// A value with the given tag and contents, constructed for SEQUENCE and SET and primitive
    /// otherwise.
    pub fn from_tag_and_bytes(tag: Tag, bytes: Vec<u8>) -> (r: Self)
        ensures
            r@ == (DerValueView { tag, pcbit: spec_default_pcbit(tag), value: bytes@ }),
    {
        let universal = match tag.tag_class {
            TagClass::Universal => true,
            _ => false,
        };
        let pcbit = if universal && (tag.tag_number == 16 || tag.tag_number == 17) {
            PcBit::Constructed
        } else {
            PcBit::Primitive
        };
        DerValue { tag, pcbit, value: bytes }
    }

    /// A value with the given tag, primitive/constructed bit and contents.
    pub fn from_tag_pc_and_bytes(tag: Tag, pcbit: PcBit, bytes: Vec<u8>) -> (r: Self)
        ensures
            r@ == (DerValueView { tag, pcbit, value: bytes@ }),
    {
        DerValue { tag, pcbit, value: bytes }
    }

    /// An OCTET STRING with the given contents.
    pub fn from_octetstring(bytes: Vec<u8>) -> (r: Self)
        ensures
            r@ == (DerValueView {
                tag: Tag { tag_class: TagClass::Universal, tag_number: 4 },
                pcbit: PcBit::Primitive,
                value: bytes@,
            }),
    {
        DerValue {
            tag: Tag { tag_class: TagClass::Universal, tag_number: 4 },
            pcbit: PcBit::Primitive,
            value: bytes,
        }
    }

    pub fn tag(&self) -> (r: Tag)
        ensures r == self@.tag,
    {
        self.tag
    }

    pub fn pcbit(&self) -> (r: PcBit)
        ensures r == self@.pcbit,
    {
        self.pcbit
    }

    pub fn value(&self) -> (r: &[u8])
        ensures r@ == self@.value,
    {
        self.value.as_slice()
    }

    pub fn duplicate(&self) -> (r: Self)
        ensures r@ == self@,
    {
        DerValue { tag: self.tag, pcbit: self.pcbit, value: copy_bytes(&self.value) }
    }
}

/// The mathematical value of one relative distinguished name entry.
pub type NameEntryView = (Seq<u64>, DerValueView);

/// A distinguished name: a list of (attribute type, attribute value) pairs, each of which is
/// encoded as a relative distinguished name of its own.
#[derive(Debug)]
pub struct DistinguishedName {
    pub value: Vec<(Vec<u64>, DerValue)>,
}

/// The view of a list of name entries.
pub open spec fn name_entries_view(v: Seq<(Vec<u64>, DerValue)>) -> Seq<NameEntryView> {
    v.map_values(|e: (Vec<u64>, DerValue)| (e.0@, e.1@))
}

impl View for DistinguishedName {
    type V = Seq<NameEntryView>;

    open spec fn view(&self) -> Seq<NameEntryView> {
        name_entries_view(self.value@)
    }
}

impl DistinguishedName {
    /// The name without any entry.
    pub fn empty() -> (r: Self)
        ensures r@ == Seq::<NameEntryView>::empty(),
    {
        let r = DistinguishedName { value: Vec::new() };
        assert(r@ =~= Seq::<NameEntryView>::empty());
        r
    }

    /// Appends an entry at the end of the name.
    pub fn push(&mut self, oid: Vec<u64>, value: DerValue)
        ensures final(self)@ == old(self)@.push((oid@, value@)),
    {
        let ghost before = self.value@;
        self.value.push((oid, value));
        assert(self@ =~= old(self)@.push((oid@, value@))) by {
            assert(self.value@ == before.push((oid, value)));
        }
    }

    pub fn duplicate(&self) -> (r: Self)
        ensures r@ == self@,
    {
        let mut out: Vec<(Vec<u64>, DerValue)> = Vec::new();
        let mut i: usize = 0;
        while i < self.value.len()
            invariant
                0 <= i <= self.value@.len(),
                out@.len() == i,
                name_entries_view(out@) == name_entries_view(self.value@).take(i as int),
            decreases self.value@.len() - i,
        {
            let e = &self.value[i];
            let ghost before = out@;
            let item = (copy_oid(&e.0), e.1.duplicate());
            out.push(item);
            assert(name_entries_view(out@) =~= name_entries_view(self.value@).take(i + 1)) by {
                assert(out@ == before.push(item));
                assert forall|j: int| 0 <= j < i implies name_entries_view(out@)[j] == name_entries_view(before)[j] by {
                    assert(out@[j] == before[j]);
                }
                assert(name_entries_view(out@)[i as int] == (item.0@, item.1@));
            }
            i = i + 1;
        }
        assert(name_entries_view(self.value@).take(i as int) =~= name_entries_view(self.value@));
        DistinguishedName { value: out }
    }
}

/// A certificate extension: its identifier, whether it is critical, and its DER-encoded value.
#[derive(Debug)]
pub struct X509Extension {
    pub oid: Vec<u64>,
    pub critical: bool,
    pub value: Vec<u8>,
}

/// The mathematical value of an [X509Extension].
pub struct X509ExtensionView {
    pub oid: Seq<u64>,
    pub critical: bool,
    pub value: Seq<u8>,
}

impl View for X509Extension {
    type V = X509ExtensionView;

    open spec fn view(&self) -> X509ExtensionView {
        X509ExtensionView { oid: self.oid@, critical: self.critical, value: self.value@ }
    }
}

/// The views of a list of extensions.
pub open spec fn extensions_view(v: Seq<X509Extension>) -> Seq<X509ExtensionView> {
    v.map_values(|e: X509Extension| e@)
}

/// The identifiers of a list of extensions, in order.
pub open spec fn extension_oids(v: Seq<X509ExtensionView>) -> Seq<Seq<u64>> {
    v.map_values(|e: X509ExtensionView| e.oid)
}

impl X509Extension {
    pub fn duplicate(&self) -> (r: Self)
        ensures r@ == self@,
    {
        X509Extension { oid: copy_oid(&self.oid), critical: self.critical, value: copy_bytes(&self.value) }
    }
}

/// A PKCS#10 attribute: its identifier and its values, each DER-encoded.
#[derive(Debug)]
pub struct CsrAttribute {
    pub oid: Vec<u64>,
    pub value: Vec<Vec<u8>>,
}

/// The mathematical value of an [CsrAttribute].
pub struct CsrAttributeView {
    pub oid: Seq<u64>,
    pub value: Seq<Seq<u8>>,
}

/// The views of a list of byte strings.
pub open spec fn bytes_list_view(v: Seq<Vec<u8>>) -> Seq<Seq<u8>> {
    v.map_values(|b: Vec<u8>| b@)
}

impl View for CsrAttribute {
    type V = CsrAttributeView;

    open spec fn view(&self) -> CsrAttributeView {
        CsrAttributeView { oid: self.oid@, value: bytes_list_view(self.value@) }
    }
}

impl CsrAttribute {
    pub fn duplicate(&self) -> (r: Self)
        ensures r@ == self@,
    {
        let mut value: Vec<Vec<u8>> = Vec::new();
        let mut i: usize = 0;
        while i < self.value.len()
            invariant
                0 <= i <= self.value@.len(),
                value@.len() == i,
                bytes_list_view(value@) == bytes_list_view(self.value@).take(i as int),
            decreases self.value@.len() - i,
        {
            let ghost before = value@;
            let item = copy_bytes(&self.value[i]);
            value.push(item);
            assert(value@ == before.push(item));
            assert forall|j: int| 0 <= j < i implies bytes_list_view(value@)[j] == bytes_list_view(before)[j] by {
                assert(value@[j] == before[j]);
            }
            assert(bytes_list_view(value@) =~= bytes_list_view(self.value@).take(i + 1));
            i = i + 1;
        }
        assert(bytes_list_view(self.value@).take(i as int) =~= bytes_list_view(self.value@));
        CsrAttribute { oid: copy_oid(&self.oid), value }
    }
}

/// The views of a list of attributes.
pub open spec fn attributes_view(v: Seq<CsrAttribute>) -> Seq<CsrAttributeView> {
    v.map_values(|a: CsrAttribute| a@)
}

/// The identifiers of a list of attributes, in order.
pub open spec fn attribute_oids(v: Seq<CsrAttributeView>) -> Seq<Seq<u64>> {
    v.map_values(|a: CsrAttributeView| a.oid)
}

/// A general name, as used in the subject alternative name extension.
#[derive(Debug)]
pub enum AltName {
    OtherName(Vec<u64>, DerValue),
    Rfc822Name(String),
    DnsName(String),
    DirectoryName(DistinguishedName),
    UniformResourceIdentifier(String),
    IpAddress(Vec<u8>),
    RegisteredID(Vec<u64>),
}

/// The mathematical value of a [AltName].
pub enum AltNameView {
    OtherName(Seq<u64>, DerValueView),
    Rfc822Name(Seq<char>),
    DnsName(Seq<char>),
    DirectoryName(Seq<NameEntryView>),
    UniformResourceIdentifier(Seq<char>),
    IpAddress(Seq<u8>),
    RegisteredID(Seq<u64>),
}

impl View for AltName {
    type V = AltNameView;

    open spec fn view(&self) -> AltNameView {
        match self {
            AltName::OtherName(o, v) => AltNameView::OtherName(o@, v@),
            AltName::Rfc822Name(s) => AltNameView::Rfc822Name(s@),
            AltName::DnsName(s) => AltNameView::DnsName(s@),
            AltName::DirectoryName(n) => AltNameView::DirectoryName(n@),
            AltName::UniformResourceIdentifier(s) => AltNameView::UniformResourceIdentifier(s@),
            AltName::IpAddress(a) => AltNameView::IpAddress(a@),
            AltName::RegisteredID(o) => AltNameView::RegisteredID(o@),
        }
    }
}

/// The views of a list of general names.
pub open spec fn general_names_view(v: Seq<AltName>) -> Seq<AltNameView> {
    v.map_values(|g: AltName| g@)
}

/// An object identifier that DER can encode, as `yasna`'s `write_oid` requires: at least two
/// components, the first below 3, the second below 40 under a first of 0 or 1, and the second
/// small enough that the first two combine into one 64-bit number.
pub open spec fn oid_encodable(oid: Seq<u64>) -> bool {
    &&& oid.len() >= 2
    &&& oid[0] < 3
    &&& oid[1] < 18446744073709551535u64
    &&& (oid[0] >= 2 || oid[1] < 40)
}

/// Every entry of the name has an encodable attribute type.
pub open spec fn name_encodable(name: Seq<NameEntryView>) -> bool {
    forall|i: int| 0 <= i < name.len() ==> oid_encodable(#[trigger] name[i].0)
}

/// Every extension has an encodable identifier.
pub open spec fn extensions_encodable(extensions: Seq<X509ExtensionView>) -> bool {
    forall|i: int| 0 <= i < extensions.len() ==> oid_encodable(#[trigger] extensions[i].oid)
}

/// A DER value whose first octet announces a tag number in the following octets (the high-tag
/// form) has an octet that ends that number.
pub open spec fn high_tag_terminated(value: Seq<u8>) -> bool {
    value[0] % 32 == 31 ==> exists|i: int| 1 <= i < value.len() && #[trigger] value[i] < 128
}

/// The values of an attribute can be written as a DER SET by `yasna`'s `write_set`, which
/// asserts that no value is empty and, to sort two or more values, reads the tag number of each
/// one in the high-tag form.
pub open spec fn attribute_values_writable(values: Seq<Seq<u8>>) -> bool {
    &&& forall|j: int| 0 <= j < values.len() ==> #[trigger] values[j].len() > 0
    &&& values.len() > 1 ==> forall|j: int| 0 <= j < values.len() ==> high_tag_terminated(#[trigger] values[j])
}

/// Every attribute has an encodable identifier and values that can be written.
pub open spec fn attributes_encodable(attributes: Seq<CsrAttributeView>) -> bool {
    forall|i: int| 0 <= i < attributes.len() ==>
        oid_encodable(#[trigger] attributes[i].oid) && attribute_values_writable(attributes[i].value)
}

/// The object identifiers that a general name holds are encodable.
pub open spec fn general_name_encodable(name: AltNameView) -> bool {
    match name {
        AltNameView::OtherName(oid, _) => oid_encodable(oid),
        AltNameView::DirectoryName(n) => name_encodable(n),
        AltNameView::RegisteredID(oid) => oid_encodable(oid),
        _ => true,
    }
}

/// Every general name of the list is encodable.
pub open spec fn general_names_encodable(names: Seq<AltNameView>) -> bool {
    forall|i: int| 0 <= i < names.len() ==> general_name_encodable(#[trigger] names[i])
}

} // verus!
