use macrokit::model::Attr;
use macrokit::repr::{extract_repr, repr_type_named, ReprType};

fn attr(path: &str, args: &[&str]) -> Attr {
    Attr {
        path: path.to_string(),
        args: args.iter().map(|a| a.to_string()).collect(),
        text: format!("#[{}({})]", path, args.join(", ")),
    }
}

#[test]
fn finds_plain_repr() {
    assert_eq!(extract_repr(&vec![attr("repr", &["u16"])]), Some(ReprType::U16));
}

#[test]
fn skips_unrecognised_arguments() {
    assert_eq!(extract_repr(&vec![attr("repr", &["C", "i64"])]), Some(ReprType::I64));
}

#[test]
fn first_integer_argument_wins() {
    assert_eq!(extract_repr(&vec![attr("repr", &["u8", "i32"])]), Some(ReprType::U8));
}

#[test]
fn first_repr_attribute_with_a_type_wins() {
    let attrs = vec![attr("derive", &["u32"]), attr("repr", &["C"]), attr("repr", &["usize"]), attr("repr", &["i8"])];
    assert_eq!(extract_repr(&attrs), Some(ReprType::Usize));
}

#[test]
fn no_repr_is_not_found() {
    assert_eq!(extract_repr(&vec![]), None);
    assert_eq!(extract_repr(&vec![attr("derive", &["Debug"]), attr("repr", &["C"])]), None);
}

#[test]
fn all_twelve_names() {
    let names = ["u8", "u16", "u32", "u64", "u128", "i8", "i16", "i32", "i64", "i128", "usize", "isize"];
    for n in names {
        let t = repr_type_named(&n.to_string()).unwrap();
        assert_eq!(t.name(), n);
    }
    assert_eq!(repr_type_named(&"U8".to_string()), None);
    assert_eq!(repr_type_named(&"u".to_string()), None);
}
