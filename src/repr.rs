//! The representation-type extractor: finds the integer type named in a
//! `#[repr(..)]` attribute.

use vstd::prelude::*;

use crate::model::Attr;

verus! {

/// The integer types an enum can be represented by.
#[derive(Clone, Copy, Debug, PartialEq, Eq, Structural)]
pub enum ReprType {
    U8,
    U16,
    U32,
    U64,
    U128,
    I8,
    I16,
    I32,
    I64,
    I128,
    Usize,
    Isize,
}

/// The Rust name of a representation type.
pub open spec fn repr_name(r: ReprType) -> Seq<char> {
    match r {
        ReprType::U8 => "u8"@,
        ReprType::U16 => "u16"@,
        ReprType::U32 => "u32"@,
        ReprType::U64 => "u64"@,
        ReprType::U128 => "u128"@,
        ReprType::I8 => "i8"@,
        ReprType::I16 => "i16"@,
        ReprType::I32 => "i32"@,
        ReprType::I64 => "i64"@,
        ReprType::I128 => "i128"@,
        ReprType::Usize => "usize"@,
        ReprType::Isize => "isize"@,
    }
}

/// The representation type that `s` names, if it names one.
pub open spec fn repr_named(s: Seq<char>) -> Option<ReprType> {
    if s == "u8"@ {
        Some(ReprType::U8)
    } else if s == "u16"@ {
        Some(ReprType::U16)
    } else if s == "u32"@ {
        Some(ReprType::U32)
    } else if s == "u64"@ {
        Some(ReprType::U64)
    } else if s == "u128"@ {
        Some(ReprType::U128)
    } else if s == "i8"@ {
        Some(ReprType::I8)
    } else if s == "i16"@ {
        Some(ReprType::I16)
    } else if s == "i32"@ {
        Some(ReprType::I32)
    } else if s == "i64"@ {
        Some(ReprType::I64)
    } else if s == "i128"@ {
        Some(ReprType::I128)
    } else if s == "usize"@ {
        Some(ReprType::Usize)
    } else if s == "isize"@ {
        Some(ReprType::Isize)
    } else {
        None
    }
}

/// The first argument from index `i` on that names a representation type.
pub open spec fn first_repr_arg(args: Seq<String>, i: int) -> Option<ReprType>
    decreases args.len() - i,
{
    if i < 0 || i >= args.len() {
        None
    } else if repr_named(args[i]@) is Some {
        repr_named(args[i]@)
    } else {
        first_repr_arg(args, i + 1)
    }
}

/// The representation type of the first `repr` attribute, from index `i` on,
/// that names one among its arguments.
pub open spec fn repr_of_attrs_from(attrs: Seq<Attr>, i: int) -> Option<ReprType>
    decreases attrs.len() - i,
{
    if i < 0 || i >= attrs.len() {
        None
    } else if attrs[i].path@ == "repr"@ && first_repr_arg(attrs[i].args@, 0) is Some {
        first_repr_arg(attrs[i].args@, 0)
    } else {
        repr_of_attrs_from(attrs, i + 1)
    }
}

/// The representation type declared by an attribute list.
pub open spec fn repr_of_attrs(attrs: Seq<Attr>) -> Option<ReprType> {
    repr_of_attrs_from(attrs, 0)
}

impl ReprType {
    /// The Rust name of this type, e.g. `"u8"`.
    pub fn name(&self) -> (r: &'static str)
        ensures
            r@ == repr_name(*self),
    {
        match self {
            ReprType::U8 => "u8",
            ReprType::U16 => "u16",
            ReprType::U32 => "u32",
            ReprType::U64 => "u64",
            ReprType::U128 => "u128",
            ReprType::I8 => "i8",
            ReprType::I16 => "i16",
            ReprType::I32 => "i32",
            ReprType::I64 => "i64",
            ReprType::I128 => "i128",
            ReprType::Usize => "usize",
            ReprType::Isize => "isize",
        }
    }
}

/// The representation type that `s` names, if it names one of the twelve
/// integer types.
pub fn repr_type_named(s: &String) -> (r: Option<ReprType>)
    ensures
        r == repr_named(s@),
{
    if *s == String::from_str("u8") {
        Some(ReprType::U8)
    } else if *s == String::from_str("u16") {
        Some(ReprType::U16)
    } else if *s == String::from_str("u32") {
        Some(ReprType::U32)
    } else if *s == String::from_str("u64") {
        Some(ReprType::U64)
    } else if *s == String::from_str("u128") {
        Some(ReprType::U128)
    } else if *s == String::from_str("i8") {
        Some(ReprType::I8)
    } else if *s == String::from_str("i16") {
        Some(ReprType::I16)
    } else if *s == String::from_str("i32") {
        Some(ReprType::I32)
    } else if *s == String::from_str("i64") {
        Some(ReprType::I64)
    } else if *s == String::from_str("i128") {
        Some(ReprType::I128)
    } else if *s == String::from_str("usize") {
        Some(ReprType::Usize)
    } else if *s == String::from_str("isize") {
        Some(ReprType::Isize)
    } else {
        None
    }
}

/// Finds the declared representation type: the first `repr` attribute that
/// names an integer type among its arguments gives it, and within that
/// attribute the first such argument. Other arguments (`C`, `align(..)`)
/// are passed over; `None` when no attribute names one.
pub fn extract_repr(attrs: &Vec<Attr>) -> (r: Option<ReprType>)
    ensures
        r == repr_of_attrs(attrs@),
{
    let repr_path = String::from_str("repr");
    let mut i: usize = 0;
    while i < attrs.len()
        invariant
            i <= attrs@.len(),
            repr_path@ == "repr"@,
            repr_of_attrs_from(attrs@, 0) == repr_of_attrs_from(attrs@, i as int),
        decreases attrs@.len() - i,
    {
        let attr = &attrs[i];
        if attr.path == repr_path {
            let mut j: usize = 0;
            while j < attr.args.len()
                invariant
                    j <= attr.args@.len(),
                    i < attrs@.len(),
                    attr == attrs@[i as int],
                    attr.path@ == "repr"@,
                    repr_of_attrs_from(attrs@, 0) == repr_of_attrs_from(attrs@, i as int),
                    first_repr_arg(attr.args@, 0) == first_repr_arg(attr.args@, j as int),
                decreases attr.args@.len() - j,
            {
                let found = repr_type_named(&attr.args[j]);
                if found.is_some() {
                    assert(first_repr_arg(attr.args@, j as int) == found);
                    assert(repr_of_attrs_from(attrs@, i as int) == found);
                    return found;
                }
                j += 1;
            }
        }
        i += 1;
    }
    None
}

} // verus!
