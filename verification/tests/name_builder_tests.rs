use certbuilder::name_builder::{DnType, Issuer, NameBuilder, Subject};
use certbuilder::types::{DerValue, DistinguishedName, PcBit, Tag, TagClass};

fn utf8_tag() -> Tag {
    Tag { tag_class: TagClass::Universal, tag_number: 12 }
}

#[test]
fn entries_keep_the_order_of_adding() {
    let name = NameBuilder::new()
        .add_common_name("example".to_string())
        .add_country_name("NL".to_string())
        .add_organization_name("Org".to_string())
        .build_name();
    assert_eq!(name.value.len(), 3);
    assert_eq!(name.value[0].0, vec![2, 5, 4, 3]);
    assert_eq!(name.value[1].0, vec![2, 5, 4, 6]);
    assert_eq!(name.value[2].0, vec![2, 5, 4, 10]);
    assert_eq!(name.value[0].1.value(), b"example");
    assert_eq!(name.value[0].1.tag(), utf8_tag());
    assert_eq!(name.value[0].1.pcbit(), PcBit::Primitive);
}

#[test]
fn each_named_kind_has_its_identifier() {
    let name = NameBuilder::new()
        .add_country_name("a".to_string())
        .add_locality_name("b".to_string())
        .add_state_or_province_name("c".to_string())
        .add_organization_name("d".to_string())
        .add_organizational_unit_name("e".to_string())
        .add_common_name("f".to_string())
        .add_serial_name("g".to_string())
        .build_name();
    let oids: Vec<Vec<u64>> = name.value.iter().map(|e| e.0.clone()).collect();
    assert_eq!(
        oids,
        vec![
            vec![2, 5, 4, 6],
            vec![2, 5, 4, 7],
            vec![2, 5, 4, 8],
            vec![2, 5, 4, 10],
            vec![2, 5, 4, 11],
            vec![2, 5, 4, 3],
            vec![2, 5, 4, 5],
        ]
    );
}

#[test]
fn add_dn_with_custom_type_uses_the_given_identifier() {
    let name = NameBuilder::new().add_dn(DnType::CustomType(vec![1, 2, 3, 4]), "x".to_string()).build_name();
    assert_eq!(name.value.len(), 1);
    assert_eq!(name.value[0].0, vec![1, 2, 3, 4]);
    assert_eq!(name.value[0].1.value(), b"x");
}

#[test]
fn utf8_values_hold_the_utf8_encoding() {
    let name = NameBuilder::new().add_common_name("Zürich".to_string()).build_name();
    assert_eq!(name.value[0].1.value(), "Zürich".as_bytes());
}

#[test]
fn iter_variants_add_one_entry_per_item_in_order() {
    let name = NameBuilder::new()
        .add_organizational_unit_name_iter(vec!["one".to_string(), "two".to_string(), "three".to_string()])
        .build_name();
    assert_eq!(name.value.len(), 3);
    for e in &name.value {
        assert_eq!(e.0, vec![2, 5, 4, 11]);
    }
    assert_eq!(name.value[0].1.value(), b"one");
    assert_eq!(name.value[1].1.value(), b"two");
    assert_eq!(name.value[2].1.value(), b"three");
}

#[test]
fn iter_variant_matches_repeated_single_adds() {
    let at_once = NameBuilder::new()
        .add_common_name("a".to_string())
        .add_country_name_iter(vec!["NL".to_string(), "BE".to_string()])
        .build_name();
    let one_by_one = NameBuilder::new()
        .add_common_name("a".to_string())
        .add_country_name("NL".to_string())
        .add_country_name("BE".to_string())
        .build_name();
    assert_eq!(at_once.value.len(), one_by_one.value.len());
    for (x, y) in at_once.value.iter().zip(one_by_one.value.iter()) {
        assert_eq!(x.0, y.0);
        assert_eq!(x.1.value(), y.1.value());
        assert_eq!(x.1.tag(), y.1.tag());
    }
}

#[test]
fn empty_iter_gives_an_empty_name() {
    let name = NameBuilder::new().add_locality_name_iter(Vec::<String>::new()).build_name();
    assert!(name.value.is_empty());
}

#[test]
fn every_iter_variant_uses_its_identifier() {
    let b = NameBuilder::new()
        .add_locality_name_iter(vec!["l".to_string()])
        .add_state_or_province_name_iter(vec!["s".to_string()])
        .add_organization_name_iter(vec!["o".to_string()])
        .add_common_name_iter(vec!["c".to_string()])
        .add_serial_name_iter(vec!["n".to_string()]);
    let name = b.build_name();
    let oids: Vec<Vec<u64>> = name.value.iter().map(|e| e.0.clone()).collect();
    assert_eq!(oids, vec![vec![2, 5, 4, 7], vec![2, 5, 4, 8], vec![2, 5, 4, 10], vec![2, 5, 4, 3], vec![2, 5, 4, 5]]);
}

#[test]
fn custom_oid_values_are_kept_as_given() {
    let v = DerValue::from_tag_pc_and_bytes(
        Tag { tag_class: TagClass::Universal, tag_number: 18 },
        PcBit::Primitive,
        b"23".to_vec(),
    );
    let name = NameBuilder::new().add_custom_oid(vec![2, 5, 4, 34], v).build_name();
    assert_eq!(name.value[0].0, vec![2, 5, 4, 34]);
    assert_eq!(name.value[0].1.tag().tag_number, 18);
    assert_eq!(name.value[0].1.value(), b"23");
}

#[test]
fn custom_oid_iter_adds_each_value() {
    let values = vec![DerValue::from_octetstring(vec![1]), DerValue::from_octetstring(vec![2, 3])];
    let name = NameBuilder::new().add_custom_oid_iter(vec![1, 3, 6, 1], values).build_name();
    assert_eq!(name.value.len(), 2);
    assert_eq!(name.value[0].0, vec![1, 3, 6, 1]);
    assert_eq!(name.value[1].0, vec![1, 3, 6, 1]);
    assert_eq!(name.value[0].1.value(), &[1]);
    assert_eq!(name.value[1].1.value(), &[2, 3]);
    assert_eq!(name.value[1].1.tag().tag_number, 4);
}

#[test]
fn sequence_and_set_tags_are_constructed() {
    let seq = DerValue::from_tag_and_bytes(Tag { tag_class: TagClass::Universal, tag_number: 16 }, vec![]);
    let set = DerValue::from_tag_and_bytes(Tag { tag_class: TagClass::Universal, tag_number: 17 }, vec![]);
    let int = DerValue::from_tag_and_bytes(Tag { tag_class: TagClass::Universal, tag_number: 2 }, vec![1]);
    let ctx = DerValue::from_tag_and_bytes(Tag { tag_class: TagClass::ContextSpecific, tag_number: 16 }, vec![]);
    assert_eq!(seq.pcbit(), PcBit::Constructed);
    assert_eq!(set.pcbit(), PcBit::Constructed);
    assert_eq!(int.pcbit(), PcBit::Primitive);
    assert_eq!(ctx.pcbit(), PcBit::Primitive);
}

#[test]
fn subject_and_issuer_convert_both_ways() {
    let subject = NameBuilder::new().add_common_name("cn".to_string()).build_subject();
    let issuer: Issuer = subject.into();
    assert_eq!(issuer.name().value.len(), 1);
    let back: Subject = issuer.into();
    assert_eq!(back.name().value[0].1.value(), b"cn");
    let from_name: Issuer = DistinguishedName::empty().into();
    assert!(from_name.name().value.is_empty());
    let issuer2 = NameBuilder::new().add_country_name("NL".to_string()).build_issuer();
    assert_eq!(issuer2.name().value[0].0, vec![2, 5, 4, 6]);
}

#[test]
fn default_builder_is_empty() {
    let name = NameBuilder::default().add_common_name("x".to_string()).build_name();
    assert_eq!(name.value.len(), 1);
}
