//! Helpers shared by the certificate and request builders: looking up identifiers, and the
//! extensions and attributes that the builders add themselves.

use vstd::prelude::*;

use crate::der::{encode_extensions, encode_subject_alt_name, extensions_der, subject_alt_name_der};
use crate::error::{Error, ValidationErrorType};
use crate::oids::{
    basic_constraints_oid, extension_request_oid, oid_eq, spec_basic_constraints_oid,
    spec_extension_request_oid, spec_subject_alt_name_oid, subject_alt_name_oid,
};
use crate::types::{
    attribute_oids, attributes_encodable, attributes_view, extension_oids, extensions_encodable, general_names_encodable, oid_encodable, extensions_view, general_names_view, AltName,
    AltNameView, CsrAttribute, CsrAttributeView, X509Extension, X509ExtensionView,
};

verus! {

/// No identifier occurs twice in `keys`.
pub open spec fn keys_distinct(keys: Seq<Seq<u64>>) -> bool {
    forall|i: int, j: int| 0 <= i < j < keys.len() ==> keys[i] != keys[j]
}

/// The identifiers of `keys` are distinct and none of them is `reserved`.
pub open spec fn keys_valid(keys: Seq<Seq<u64>>, reserved: Seq<u64>) -> bool {
    keys_distinct(keys) && !keys.contains(reserved)
}

/// Scanning `added` in order, the first identifier that is `reserved` or occurs already, in
/// `existing` or earlier in `added`; `None` where there is none.
pub open spec fn first_duplicate_key(existing: Seq<Seq<u64>>, added: Seq<Seq<u64>>, reserved: Seq<u64>) -> Option<Seq<u64>>
    decreases added.len(),
{
    if added.len() == 0 {
        None
    } else if existing.contains(added[0]) || added[0] == reserved {
        Some(added[0])
    } else {
        first_duplicate_key(existing.push(added[0]), added.drop_first(), reserved)
    }
}

/// One step of `first_duplicate_key`: after a prefix of `added` passes, the scan goes on from
/// the extended list.
pub proof fn lemma_first_duplicate_key_step(existing: Seq<Seq<u64>>, added: Seq<Seq<u64>>, reserved: Seq<u64>, i: int)
    requires
        0 <= i < added.len(),
        !(existing + added.take(i)).contains(added[i]),
        added[i] != reserved,
    ensures
        first_duplicate_key(existing + added.take(i), added.skip(i), reserved)
            == first_duplicate_key(existing + added.take(i + 1), added.skip(i + 1), reserved),
{
    assert(added.skip(i)[0] == added[i]);
    assert(added.skip(i).drop_first() =~= added.skip(i + 1));
    assert((existing + added.take(i)).push(added[i]) =~= existing + added.take(i + 1));
}

/// Appending identifiers that pass the scan keeps a valid list valid: no identifier appears
/// twice, and the reserved one not at all.
pub proof fn lemma_append_keeps_keys_valid(existing: Seq<Seq<u64>>, added: Seq<Seq<u64>>, reserved: Seq<u64>)
    requires
        keys_valid(existing, reserved),
        first_duplicate_key(existing, added, reserved) is None,
    ensures
        keys_valid(existing + added, reserved),
    decreases added.len(),
{
    if added.len() > 0 {
        let e2 = existing.push(added[0]);
        assert(keys_valid(e2, reserved)) by {
            assert forall|i: int, j: int| 0 <= i < j < e2.len() implies e2[i] != e2[j] by {
                if j == existing.len() {
                    assert(existing.contains(existing[i]));
                }
            }
            if e2.contains(reserved) {
                let k = choose|k: int| 0 <= k < e2.len() && e2[k] == reserved;
                if k < existing.len() {
                    assert(existing.contains(reserved));
                }
            }
        }
        lemma_append_keeps_keys_valid(e2, added.drop_first(), reserved);
        assert(e2 + added.drop_first() =~= existing + added);
    } else {
        assert(existing + added =~= existing);
    }
}

/// Whether some extension in `extensions` has the identifier `key`.
pub fn extensions_contain_key(extensions: &[X509Extension], key: &[u64]) -> (r: bool)
    ensures r == extension_oids(extensions_view(extensions@)).contains(key@),
{
    let ghost oids = extension_oids(extensions_view(extensions@));
    let mut i: usize = 0;
    while i < extensions.len()
        invariant
            0 <= i <= extensions@.len(),
            oids == extension_oids(extensions_view(extensions@)),
            oids.len() == extensions@.len(),
            forall|j: int| 0 <= j < i ==> oids[j] != key@,
        decreases extensions@.len() - i,
    {
        if oid_eq(extensions[i].oid.as_slice(), key) {
            assert(oids[i as int] == key@);
            return true;
        }
        i = i + 1;
    }
    false
}

/// Whether some attribute in `attributes` has the identifier `key`.
pub fn attributes_contain_key(attributes: &[CsrAttribute], key: &[u64]) -> (r: bool)
    ensures r == attribute_oids(attributes_view(attributes@)).contains(key@),
{
    let ghost oids = attribute_oids(attributes_view(attributes@));
    let mut i: usize = 0;
    while i < attributes.len()
        invariant
            0 <= i <= attributes@.len(),
            oids == attribute_oids(attributes_view(attributes@)),
            oids.len() == attributes@.len(),
            forall|j: int| 0 <= j < i ==> oids[j] != key@,
        decreases attributes@.len() - i,
    {
        if oid_eq(attributes[i].oid.as_slice(), key) {
            assert(oids[i as int] == key@);
            return true;
        }
        i = i + 1;
    }
    false
}

/// The DER value of BasicConstraints: `cA` TRUE for a CA, and the empty sequence otherwise.
pub open spec fn spec_basic_constraints_value(ca: bool) -> Seq<u8> {
    if ca {
        seq![0x30u8, 0x03, 0x01, 0x01, 0xFF]
    } else {
        seq![0x30u8, 0x00]
    }
}

/// The critical BasicConstraints extension that the builders add.
pub open spec fn spec_basic_constraints_ext(ca: bool) -> X509ExtensionView {
    X509ExtensionView { oid: spec_basic_constraints_oid(), critical: true, value: spec_basic_constraints_value(ca) }
}

pub fn basic_constraints_ext(ca: bool) -> (r: X509Extension)
    ensures r@ == spec_basic_constraints_ext(ca),
{
    let value: Vec<u8> = if ca {
        vec![0x30, 0x03, 0x01, 0x01, 0xFF]
    } else {
        vec![0x30, 0]
    };
    assert(value@ =~= spec_basic_constraints_value(ca));
    X509Extension { oid: basic_constraints_oid(), critical: true, value }
}

/// The non-critical subject alternative name extension listing `names`.
pub open spec fn spec_san_extension(names: Seq<AltNameView>) -> X509ExtensionView {
    X509ExtensionView { oid: spec_subject_alt_name_oid(), critical: false, value: subject_alt_name_der(names) }
}

pub fn san_extension_from_general_names(sans: Vec<AltName>) -> (r: X509Extension)
    requires general_names_encodable(general_names_view(sans@)),
    ensures r@ == spec_san_extension(general_names_view(sans@)),
{
    let value = encode_subject_alt_name(sans.as_slice());
    X509Extension { oid: subject_alt_name_oid(), critical: false, value }
}

/// The extensions of a certificate or request: the given ones, then the BasicConstraints
/// extension, then the subject alternative name extension where one is given.
pub open spec fn spec_built_extensions(base: Seq<X509ExtensionView>, ca: bool, san: Option<X509ExtensionView>) -> Seq<X509ExtensionView> {
    match san {
        Some(s) => base.push(spec_basic_constraints_ext(ca)).push(s),
        None => base.push(spec_basic_constraints_ext(ca)),
    }
}

/// Whether building the extensions is refused: a subject alternative name extension is given
/// separately while the given extensions hold one already.
pub open spec fn spec_san_conflict(base: Seq<X509ExtensionView>, san: Option<X509ExtensionView>) -> bool {
    san is Some && extension_oids(base).contains(spec_subject_alt_name_oid())
}

/// The error for an identifier that would appear twice among the extensions.
pub open spec fn is_duplicate_extension_error(e: Error, oid: Seq<u64>) -> bool {
    e matches Error::Validation(ValidationErrorType::DuplicateExtension(o)) && o@ == oid
}

/// The error for an identifier that would appear twice among the attributes.
pub open spec fn is_duplicate_attribute_error(e: Error, oid: Seq<u64>) -> bool {
    e matches Error::Validation(ValidationErrorType::DuplicateAttribute(o)) && o@ == oid
}

pub fn build_extensions(base_extensions: Vec<X509Extension>, ca: bool, maybe_san_extension: Option<X509Extension>) -> (r: Result<Vec<X509Extension>, Error>)
    ensures
        ({
            let base = extensions_view(base_extensions@);
            let san = match maybe_san_extension { Some(s) => Some(s@), None => None };
            &&& r is Err <==> spec_san_conflict(base, san)
            &&& r matches Err(e) ==> is_duplicate_extension_error(e, spec_subject_alt_name_oid())
            &&& r matches Ok(v) ==> extensions_view(v@) == spec_built_extensions(base, ca, san)
        }),
{
    let mut base_extensions = base_extensions;
    let ghost base = extensions_view(base_extensions@);
    let bc = basic_constraints_ext(ca);
    base_extensions.push(bc);
    assert(extensions_view(base_extensions@) =~= base.push(bc@));
    match maybe_san_extension {
        Some(san_extension) => {
            let san_oid = subject_alt_name_oid();
            assert(extension_oids(base.push(bc@)) =~= extension_oids(base).push(spec_basic_constraints_oid()));
            assert(spec_basic_constraints_oid() != spec_subject_alt_name_oid()) by {
                assert(spec_basic_constraints_oid()[3] != spec_subject_alt_name_oid()[3]);
            }
            if extensions_contain_key(base_extensions.as_slice(), san_oid.as_slice()) {
                proof {
                    let oids = extension_oids(base);
                    let k = choose|k: int| 0 <= k < oids.push(spec_basic_constraints_oid()).len()
                        && oids.push(spec_basic_constraints_oid())[k] == spec_subject_alt_name_oid();
                    assert(k < oids.len());
                    assert(oids.contains(spec_subject_alt_name_oid()));
                }
                return Err(Error::Validation(ValidationErrorType::DuplicateExtension(san_oid)));
            }
            proof {
                let oids = extension_oids(base);
                if oids.contains(spec_subject_alt_name_oid()) {
                    let k = choose|k: int| 0 <= k < oids.len() && oids[k] == spec_subject_alt_name_oid();
                    assert(oids.push(spec_basic_constraints_oid())[k] == spec_subject_alt_name_oid());
                }
            }
            let ghost with_bc = base_extensions@;
            base_extensions.push(san_extension);
            assert(extensions_view(base_extensions@) =~= base.push(bc@).push(san_extension@)) by {
                assert(base_extensions@ == with_bc.push(san_extension));
            }
        },
        None => {},
    }
    Ok(base_extensions)
}

/// The extensions of a built certificate or request carry each identifier at most once, and
/// among them the BasicConstraints extension, when the given extensions are distinct and lack
/// BasicConstraints and building is not refused.
pub proof fn lemma_built_extensions_distinct(base: Seq<X509ExtensionView>, ca: bool, san: Option<X509ExtensionView>)
    requires
        keys_valid(extension_oids(base), spec_basic_constraints_oid()),
        san matches Some(s) ==> s.oid == spec_subject_alt_name_oid(),
        !spec_san_conflict(base, san),
    ensures
        keys_distinct(extension_oids(spec_built_extensions(base, ca, san))),
        extension_oids(spec_built_extensions(base, ca, san)).contains(spec_basic_constraints_oid()),
{
    let oids = extension_oids(base);
    let with_bc = base.push(spec_basic_constraints_ext(ca));
    assert(extension_oids(with_bc) =~= oids.push(spec_basic_constraints_oid()));
    assert(spec_basic_constraints_oid() != spec_subject_alt_name_oid()) by {
        assert(spec_basic_constraints_oid()[3] != spec_subject_alt_name_oid()[3]);
    }
    let o1 = extension_oids(with_bc);
    assert(keys_distinct(o1)) by {
        assert forall|i: int, j: int| 0 <= i < j < o1.len() implies o1[i] != o1[j] by {
            if j == oids.len() {
                assert(oids.contains(oids[i]));
            }
        }
    }
    assert(o1[oids.len() as int] == spec_basic_constraints_oid());
    match san {
        Some(s) => {
            let built = with_bc.push(s);
            let o2 = extension_oids(built);
            assert(o2 =~= o1.push(s.oid));
            assert forall|i: int, j: int| 0 <= i < j < o2.len() implies o2[i] != o2[j] by {
                if j == o1.len() {
                    if i < oids.len() {
                        assert(oids.contains(oids[i]));
                    }
                }
            }
            assert(o2[oids.len() as int] == spec_basic_constraints_oid());
        },
        None => {},
    }
}

/// The extensions of a certificate or request are encodable when the given ones are.
pub proof fn lemma_built_extensions_encodable(base: Seq<X509ExtensionView>, ca: bool, san: Option<X509ExtensionView>)
    requires
        extensions_encodable(base),
        san matches Some(s) ==> s.oid == spec_subject_alt_name_oid(),
    ensures
        extensions_encodable(spec_built_extensions(base, ca, san)),
{
    let built = spec_built_extensions(base, ca, san);
    assert forall|i: int| 0 <= i < built.len() implies oid_encodable(#[trigger] built[i].oid) by {
        if i >= base.len() {
            assert(oid_encodable(spec_basic_constraints_oid()));
            assert(oid_encodable(spec_subject_alt_name_oid()));
        } else {
            assert(built[i] == base[i]);
        }
    }
}

/// The attributes of a request: the given ones, then the extension request that carries the
/// DER encoding of `extensions`.
pub open spec fn spec_built_attributes(attributes: Seq<CsrAttributeView>, extensions: Seq<X509ExtensionView>) -> Seq<CsrAttributeView> {
    attributes.push(CsrAttributeView { oid: spec_extension_request_oid(), value: seq![extensions_der(extensions)] })
}

/// The attributes of a built request carry each identifier at most once, and among them the
/// extension request, when the given attributes are distinct and lack the extension request.
pub proof fn lemma_built_attributes_distinct(attributes: Seq<CsrAttributeView>, extensions: Seq<X509ExtensionView>)
    requires keys_valid(attribute_oids(attributes), spec_extension_request_oid()),
    ensures
        keys_distinct(attribute_oids(spec_built_attributes(attributes, extensions))),
        attribute_oids(spec_built_attributes(attributes, extensions)).contains(spec_extension_request_oid()),
{
    let oids = attribute_oids(attributes);
    let built = attribute_oids(spec_built_attributes(attributes, extensions));
    assert(built =~= oids.push(spec_extension_request_oid()));
    assert forall|i: int, j: int| 0 <= i < j < built.len() implies built[i] != built[j] by {
        if j == oids.len() {
            assert(oids.contains(oids[i]));
        }
    }
    assert(built[oids.len() as int] == spec_extension_request_oid());
}

pub fn build_attributes(attributes: Vec<CsrAttribute>, cert_extensions: Vec<X509Extension>) -> (r: Result<Vec<CsrAttribute>, Error>)
    requires extensions_encodable(extensions_view(cert_extensions@)),
    ensures
        attributes_encodable(attributes_view(attributes@)) ==> (r matches Ok(v) && attributes_encodable(attributes_view(v@))),
        r matches Ok(v) && attributes_view(v@) == spec_built_attributes(attributes_view(attributes@), extensions_view(cert_extensions@)),
{
    let mut attributes = attributes;
    let ghost before = attributes@;
    let cert_extensions_der = encode_extensions(cert_extensions.as_slice());
    let value: Vec<Vec<u8>> = vec![cert_extensions_der];
    let request = CsrAttribute { oid: extension_request_oid(), value };
    assert(request@.value =~= seq![extensions_der(extensions_view(cert_extensions@))]);
    attributes.push(request);
    assert(attributes_view(attributes@) =~= attributes_view(before).push(request@));
    Ok(attributes)
}

} // verus!
