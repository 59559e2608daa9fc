use endian_derive::{
    enum_try_into, extract, generate_swap, generate_try_from, swap_endian, variant_for_tag,
    Descriptor, EnumDescriptor, Fields, GenError, RecordDescriptor, Shape, TaggedVariant,
    TypeDeclaration, Variant,
};

fn record(name: &str, fields: Fields) -> TypeDeclaration {
    TypeDeclaration { name: name.to_string(), repr: None, shape: Shape::Record(fields) }
}

fn named(names: &[&str]) -> Fields {
    Fields::Named(names.iter().map(|n| n.to_string()).collect())
}

fn variant(name: &str, discriminant: Option<&str>) -> Variant {
    Variant { name: name.to_string(), discriminant: discriminant.map(|d| d.to_string()) }
}

fn enumeration(name: &str, repr: Option<&str>, variants: Vec<Variant>) -> TypeDeclaration {
    TypeDeclaration {
        name: name.to_string(),
        repr: repr.map(|r| r.to_string()),
        shape: Shape::Enumeration(variants),
    }
}

const CALL: &str = "crate::endianness::SwapEndian::swap_endian";

#[test]
fn swap_named_fields_text() {
    let text = swap_endian(&record("Header", named(&["magic", "len"]))).unwrap();
    let expected = format!(
        "impl crate::endianness::SwapEndian for Header {{ fn swap_endian(self) -> Self {{ Self {{magic: {c}(self.magic),len: {c}(self.len),}} }} }}",
        c = CALL
    );
    assert_eq!(text, expected);
}

#[test]
fn swap_named_fields_each_once() {
    let text = swap_endian(&record("P", named(&["a", "b", "c"]))).unwrap();
    for f in ["a", "b", "c"] {
        let init = format!("{f}: {CALL}(self.{f}),");
        assert_eq!(text.matches(&init).count(), 1);
    }
}

// The body emitted for `struct Pair { hi: u32, lo: u16 }`, written out by
// hand with the primitive transform, applied twice.
#[derive(Debug, Clone, Copy, PartialEq)]
struct Pair {
    hi: u32,
    lo: u16,
}

fn swap_pair(p: Pair) -> Pair {
    Pair { hi: p.hi.swap_bytes(), lo: p.lo.swap_bytes() }
}

#[test]
fn swap_named_twice_is_identity() {
    let text = swap_endian(&record("Pair", named(&["hi", "lo"]))).unwrap();
    assert!(text.contains(&format!("Self {{hi: {CALL}(self.hi),lo: {CALL}(self.lo),}}")));
    let p = Pair { hi: 0x0102_0304, lo: 0x0a0b };
    assert_eq!(swap_pair(p), Pair { hi: 0x0403_0201, lo: 0x0b0a });
    assert_eq!(swap_pair(swap_pair(p)), p);
}

#[test]
fn swap_positional_fields_in_order() {
    let text = swap_endian(&record("T", Fields::Positional(3))).unwrap();
    let expected = format!(
        "impl crate::endianness::SwapEndian for T {{ fn swap_endian(self) -> Self {{ Self({c}(self.0),{c}(self.1),{c}(self.2),) }} }}",
        c = CALL
    );
    assert_eq!(text, expected);
}

#[test]
fn swap_positional_many_fields_use_decimal_indices() {
    let text = swap_endian(&record("Wide", Fields::Positional(12))).unwrap();
    let p9 = text.find("(self.9)").unwrap();
    let p10 = text.find("(self.10)").unwrap();
    let p11 = text.find("(self.11)").unwrap();
    assert!(p9 < p10 && p10 < p11);
    assert_eq!(text.matches(CALL).count(), 12);
}

#[test]
fn swap_unit_record_is_trivial() {
    let text = swap_endian(&record("Marker", Fields::Unit)).unwrap();
    assert_eq!(
        text,
        "impl crate::endianness::SwapEndian for Marker { fn swap_endian(self) -> Self { Self } }"
    );
    assert!(!text.contains(CALL));
}

#[test]
fn swap_empty_field_lists() {
    let braces = swap_endian(&record("A", named(&[]))).unwrap();
    assert!(braces.ends_with("{ Self {} } }"));
    let parens = swap_endian(&record("B", Fields::Positional(0))).unwrap();
    assert!(parens.ends_with("{ Self() } }"));
}

#[test]
fn swap_refuses_enumerations_and_other_kinds() {
    let e = enumeration("E", Some("u8"), vec![variant("A", Some("0"))]);
    assert_eq!(swap_endian(&e), Err(GenError::UnsupportedKind));
    let u = TypeDeclaration { name: "U".to_string(), repr: None, shape: Shape::Other };
    assert_eq!(swap_endian(&u), Err(GenError::UnsupportedKind));
}

#[test]
fn generate_swap_from_descriptor() {
    let d = RecordDescriptor { name: "R".to_string(), fields: named(&["x"]) };
    assert_eq!(
        generate_swap(&d),
        format!("impl crate::endianness::SwapEndian for R {{ fn swap_endian(self) -> Self {{ Self {{x: {CALL}(self.x),}} }} }}")
    );
}

#[test]
fn try_from_text_for_three_tags() {
    let e = enumeration(
        "Kind",
        Some("u16"),
        vec![variant("A", Some("0")), variant("B", Some("2")), variant("C", Some("5"))],
    );
    let text = enum_try_into(&e).unwrap();
    let expected = "impl ::core::convert::TryFrom<u16> for Kind { type Error = (); fn try_from(value: u16) -> ::core::result::Result<Self, Self::Error> { match value { x if x == (0) => ::core::result::Result::Ok(Self::A), x if x == (2) => ::core::result::Result::Ok(Self::B), x if x == (5) => ::core::result::Result::Ok(Self::C), _ => ::core::result::Result::Err(()), } } }";
    assert_eq!(text, expected);
}

#[test]
fn converter_accepts_declared_tags_only() {
    let tags: Vec<i128> = vec![0, 2, 5];
    assert_eq!(variant_for_tag(&tags, 0), Ok(0));
    assert_eq!(variant_for_tag(&tags, 2), Ok(1));
    assert_eq!(variant_for_tag(&tags, 5), Ok(2));
    for raw in [1, 3, 4, 6, 255, 65535, -1] {
        assert_eq!(variant_for_tag(&tags, raw), Err(()));
    }
}

#[test]
fn converter_single_tag() {
    let e = enumeration("One", Some("u8"), vec![variant("Seven", Some("7"))]);
    let text = enum_try_into(&e).unwrap();
    assert!(text.contains("match value { x if x == (7) => ::core::result::Result::Ok(Self::Seven), _ =>"));
    let tags: Vec<i128> = vec![7];
    assert_eq!(variant_for_tag(&tags, 7), Ok(0));
    for raw in 0..=255i128 {
        if raw != 7 {
            assert_eq!(variant_for_tag(&tags, raw), Err(()));
        }
    }
}

#[test]
fn converter_without_tags_rejects() {
    let tags: Vec<i128> = Vec::new();
    assert_eq!(variant_for_tag(&tags, 0), Err(()));
}

#[test]
fn converter_input_uses_declared_width() {
    let e = enumeration("Wide", Some("i64"), vec![variant("Neg", Some("-1"))]);
    let text = enum_try_into(&e).unwrap();
    assert!(text.starts_with("impl ::core::convert::TryFrom<i64> for Wide { type Error = (); fn try_from(value: i64)"));
}

#[test]
fn try_from_fails_on_missing_discriminant() {
    let e = enumeration("E", Some("u8"), vec![variant("A", Some("1")), variant("B", None)]);
    assert_eq!(enum_try_into(&e), Err(GenError::MissingDiscriminant));
    let first = enumeration("E", Some("u8"), vec![variant("A", None), variant("B", Some("1"))]);
    assert_eq!(enum_try_into(&first), Err(GenError::MissingDiscriminant));
}

#[test]
fn try_from_fails_without_repr() {
    let e = enumeration("E", None, vec![variant("A", Some("1"))]);
    assert_eq!(enum_try_into(&e), Err(GenError::MissingRepr));
}

#[test]
fn try_from_fails_on_empty_enumeration() {
    let e = enumeration("E", Some("u8"), Vec::new());
    assert_eq!(enum_try_into(&e), Err(GenError::NoVariants));
}

#[test]
fn try_from_refuses_records_and_other_kinds() {
    assert_eq!(enum_try_into(&record("R", Fields::Unit)), Err(GenError::UnsupportedKind));
    let u = TypeDeclaration { name: "U".to_string(), repr: Some("u8".to_string()), shape: Shape::Other };
    assert_eq!(enum_try_into(&u), Err(GenError::UnsupportedKind));
}

#[test]
fn generate_try_from_from_descriptor() {
    let d = EnumDescriptor {
        name: "F".to_string(),
        repr: "u32".to_string(),
        variants: vec![TaggedVariant { name: "X".to_string(), discriminant: "LIMIT + 1".to_string() }],
    };
    let text = generate_try_from(&d);
    assert!(text.contains("x if x == (LIMIT + 1) => ::core::result::Result::Ok(Self::X), "));
}

#[test]
fn extract_keeps_record_fields_in_order() {
    match extract(&record("R", named(&["b", "a"]))) {
        Ok(Descriptor::Record(d)) => {
            assert_eq!(d.name, "R");
            match d.fields {
                Fields::Named(names) => assert_eq!(names, vec!["b".to_string(), "a".to_string()]),
                other => panic!("unexpected fields {other:?}"),
            }
        }
        other => panic!("unexpected result {other:?}"),
    }
}

#[test]
fn extract_tags_enumeration_variants() {
    let e = enumeration("E", Some("u8"), vec![variant("A", Some("3")), variant("B", Some("9"))]);
    match extract(&e) {
        Ok(Descriptor::Enumeration(d)) => {
            assert_eq!(d.repr, "u8");
            let pairs: Vec<(String, String)> =
                d.variants.into_iter().map(|v| (v.name, v.discriminant)).collect();
            assert_eq!(
                pairs,
                vec![("A".to_string(), "3".to_string()), ("B".to_string(), "9".to_string())]
            );
        }
        other => panic!("unexpected result {other:?}"),
    }
}

#[test]
fn extract_errors() {
    let u = TypeDeclaration { name: "U".to_string(), repr: None, shape: Shape::Other };
    assert!(matches!(extract(&u), Err(GenError::UnsupportedKind)));
    let no_repr = enumeration("E", None, Vec::new());
    assert!(matches!(extract(&no_repr), Err(GenError::MissingRepr)));
}
