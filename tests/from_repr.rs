use macrokit::conversion::{select_from_repr, select_with_unknown};
use macrokit::discriminant::resolve_discriminants;
use macrokit::model::{Attr, Data, DeriveInput, Generics, Variant};
use macrokit::synth::{from_repr_as_option_derive_impl, from_repr_with_unknown_derive_impl, DeriveError};

fn repr_attr(ty: &str) -> Attr {
    Attr {
        path: "repr".to_string(),
        args: vec![ty.to_string()],
        text: format!("#[repr({})]", ty),
    }
}

fn variant(ident: &str, discriminant: Option<&str>) -> Variant {
    Variant {
        ident: ident.to_string(),
        discriminant: discriminant.map(|d| d.to_string()),
        attrs: vec![],
    }
}

fn enum_input(ident: &str, attrs: Vec<Attr>, variants: Vec<Variant>) -> DeriveInput {
    let generics = Generics { impl_params: String::new(), type_args: String::new(), where_clause: String::new() };
    DeriveInput { attrs, ident: ident.to_string(), generics, data: Data::Enum(variants) }
}

fn values(variants: &Vec<Variant>) -> Vec<u128> {
    resolve_discriminants(variants).into_iter().map(|v| v.unwrap()).collect()
}

#[test]
fn test_from_repr_as_option() {
    let variants = vec![variant("Read", Some("1")), variant("Write", Some("2"))];
    let ast = enum_input("Command", vec![repr_attr("u8")], variants.clone());
    let code = from_repr_as_option_derive_impl(&ast).unwrap();
    assert!(code.contains("pub fn from_repr(value: u8) -> Option<Self>"));
    assert!(code.contains("v if v == Command::Read as u8 => Some(Command::Read),"));
    assert!(code.contains("v if v == Command::Write as u8 => Some(Command::Write),"));
    assert!(code.contains("_ => None,"));

    let discs = values(&variants);
    assert_eq!(select_from_repr(&discs, 1), Some(0));
    assert_eq!(select_from_repr(&discs, 2), Some(1));
    assert_eq!(select_from_repr(&discs, 3), None);
}

#[test]
fn test_from_repr_with_unknown() {
    let variants = vec![
        variant("Active", Some("0")),
        variant("Inactive", Some("1")),
        variant("Unknown", None),
    ];
    let ast = enum_input("Status", vec![repr_attr("u8")], variants.clone());
    let code = from_repr_with_unknown_derive_impl(&ast).unwrap();
    assert!(code.starts_with("impl From<u8> for Status  {"));
    assert!(code.contains("v if v == Status::Active as u8 => Status::Active,"));
    assert!(code.contains("v if v == Status::Inactive as u8 => Status::Inactive,"));
    assert!(!code.contains("Status::Unknown as u8"));
    assert!(code.contains("_ => Status::Unknown,"));

    let discs = values(&variants);
    assert_eq!(select_with_unknown(&variants, &discs, 0), Some(0));
    assert_eq!(select_with_unknown(&variants, &discs, 1), Some(1));
    assert_eq!(select_with_unknown(&variants, &discs, 99), Some(2));
}

#[test]
fn ui() {
    let variants = vec![variant("Active", Some("0")), variant("Inactive", Some("1"))];
    let ast = enum_input("Status", vec![repr_attr("u8")], variants);
    assert_eq!(from_repr_with_unknown_derive_impl(&ast), Err(DeriveError::MissingUnknown));
}
