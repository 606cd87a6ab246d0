use macrokit::discriminant::{explicit_of_variant, resolve_discriminants, resolve_values, Explicit};
use macrokit::model::{Attr, ItemEnum, Variant};
use macrokit::synth::{generate_enum_with_docs, render_enum_with_docs};

fn variant(ident: &str, discriminant: Option<&str>) -> Variant {
    Variant {
        ident: ident.to_string(),
        discriminant: discriminant.map(|d| d.to_string()),
        attrs: vec![],
    }
}

fn item(attrs: Vec<Attr>, variants: Vec<Variant>) -> ItemEnum {
    ItemEnum {
        attrs,
        vis: "pub".to_string(),
        ident: "ControlReg".to_string(),
        generics: String::new(),
        where_clause: String::new(),
        variants,
    }
}

fn repr_u8() -> Attr {
    Attr { path: "repr".to_string(), args: vec!["u8".to_string()], text: "#[repr(u8)]".to_string() }
}

#[test]
fn resolves_implicit_values_from_zero() {
    let vs = vec![variant("A", None), variant("B", None), variant("C", None)];
    assert_eq!(resolve_discriminants(&vs), vec![Some(0), Some(1), Some(2)]);
}

#[test]
fn resolves_after_explicit_literals() {
    let vs = vec![variant("A", Some("1")), variant("B", None), variant("C", Some("0xFF"))];
    assert_eq!(resolve_discriminants(&vs), vec![Some(1), Some(2), Some(255)]);
}

#[test]
fn non_literal_leaves_following_values_unknown() {
    let vs = vec![
        variant("A", None),
        variant("B", Some("BASE + 1")),
        variant("C", None),
        variant("D", Some("7")),
        variant("E", None),
    ];
    assert_eq!(resolve_discriminants(&vs), vec![Some(0), None, None, Some(7), Some(8)]);
}

#[test]
fn counter_stops_after_largest_value() {
    let es = vec![Explicit::Value(u128::MAX), Explicit::Implicit, Explicit::Value(3), Explicit::Implicit];
    assert_eq!(resolve_values(&es), vec![Some(u128::MAX), None, Some(3), Some(4)]);
}

#[test]
fn counter_passes_the_largest_i128() {
    let vs = vec![variant("A", Some("170141183460469231731687303715884105727")), variant("B", None)];
    assert_eq!(resolve_discriminants(&vs), vec![Some(i128::MAX as u128), Some(1u128 << 127)]);
}

#[test]
fn empty_enum_resolves_nothing() {
    assert_eq!(resolve_discriminants(&vec![]), Vec::<Option<u128>>::new());
}

#[test]
fn reads_literal_forms() {
    assert_eq!(explicit_of_variant(&variant("A", Some("0xFF"))), Explicit::Value(255));
    assert_eq!(explicit_of_variant(&variant("A", Some("1_000u16"))), Explicit::Value(1000));
    assert_eq!(explicit_of_variant(&variant("A", Some("0b101"))), Explicit::Value(5));
    assert_eq!(explicit_of_variant(&variant("A", Some("0o17"))), Explicit::Value(15));
    assert_eq!(explicit_of_variant(&variant("A", Some("FOO + 1"))), Explicit::Opaque);
    assert_eq!(explicit_of_variant(&variant("A", Some("-1"))), Explicit::Opaque);
    assert_eq!(explicit_of_variant(&variant("A", None)), Explicit::Implicit);
}

#[test]
fn documents_control_register() {
    let vs = vec![variant("Enable", Some("1")), variant("Disable", None), variant("Reset", Some("0xFF"))];
    let out = generate_enum_with_docs(&item(vec![repr_u8()], vs));
    assert_eq!(
        out,
        "#[repr(u8)]\npub enum ControlReg  {\n\
         #[doc = \"Enable = 0x1 (1)\"]\nEnable = 1u128 as u8,\n\
         #[doc = \"Disable = 0x2 (2)\"]\nDisable,\n\
         #[doc = \"Reset = 0xFF (255)\"]\nReset = 255u128 as u8,\n}\n"
    );
}

#[test]
fn documents_with_isize_when_no_repr() {
    let mut v = variant("Only", Some("16"));
    v.attrs = vec!["#[allow(dead_code)]".to_string()];
    let out = generate_enum_with_docs(&item(vec![], vec![v]));
    assert_eq!(
        out,
        "pub enum ControlReg  {\n#[doc = \"Only = 0x10 (16)\"]\n#[allow(dead_code)]\nOnly = 16u128 as isize,\n}\n"
    );
}

#[test]
fn documents_unknown_values_and_keeps_expressions() {
    let vs = vec![variant("A", Some("BASE")), variant("B", None)];
    let out = generate_enum_with_docs(&item(vec![repr_u8()], vs));
    assert_eq!(
        out,
        "#[repr(u8)]\npub enum ControlReg  {\n\
         #[doc = \"A (unknown)\"]\nA = BASE,\n\
         #[doc = \"B (unknown)\"]\nB,\n}\n"
    );
}

#[test]
fn documents_largest_u128() {
    let vs = vec![variant("A", Some("340282366920938463463374607431768211455"))];
    let out = generate_enum_with_docs(&item(vec![], vs));
    assert_eq!(
        out,
        format!(
            "pub enum ControlReg  {{\n#[doc = \"A = 0x{} (340282366920938463463374607431768211455)\"]\n\
             A = 340282366920938463463374607431768211455u128 as isize,\n}}\n",
            "F".repeat(32)
        )
    );
}

#[test]
fn documents_generics_and_where_clause() {
    let mut it = item(vec![], vec![variant("A", None)]);
    it.generics = "<'a>".to_string();
    it.where_clause = "where 'a: 'static".to_string();
    let out = generate_enum_with_docs(&it);
    assert_eq!(out, "pub enum ControlReg<'a> where 'a: 'static {\n#[doc = \"A = 0x0 (0)\"]\nA,\n}\n");
}

#[test]
fn made_explicit_values_resolve_the_same() {
    let first = vec![variant("A", Some("4")), variant("B", None), variant("C", Some("X")), variant("D", None)];
    let values = resolve_discriminants(&first);
    let second: Vec<Variant> = first
        .iter()
        .zip(values.iter())
        .map(|(v, r)| match (&v.discriminant, r) {
            (None, Some(n)) => variant(&v.ident, Some(&n.to_string())),
            _ => v.clone(),
        })
        .collect();
    assert_eq!(resolve_discriminants(&second), values);
    assert_eq!(values, vec![Some(4), Some(5), None, None]);
}
