//! Plain-value description of the declarations the transforms read.

use vstd::prelude::*;

verus! {

/// One outer attribute of a declaration.
#[derive(Clone, Debug)]
pub struct Attr {
    /// The attribute's path as written, e.g. `repr` or `derive`.
    pub path: String,
    /// The paths of the nested items inside its parentheses, in order,
    /// e.g. `["C", "u8"]` for `#[repr(C, u8)]`.
    pub args: Vec<String>,
    /// The whole attribute as source text, e.g. `#[repr(u8)]`.
    pub text: String,
}

/// One unit variant of an enum.
#[derive(Clone, Debug)]
pub struct Variant {
    /// The variant's identifier.
    pub ident: String,
    /// The source text of its explicit discriminant expression, if it has one.
    pub discriminant: Option<String>,
    /// Its outer attributes as source text, in order.
    pub attrs: Vec<String>,
}

/// The body of a declaration handed to a derive.
#[derive(Clone, Debug)]
pub enum Data {
    Enum(Vec<Variant>),
    Struct,
    Union,
}

/// The generics of a declaration, as source text split for writing an impl
/// (each empty when there are none).
#[derive(Clone, Debug)]
pub struct Generics {
    /// The parameters with their bounds, as after `impl`: `<T: Copy>`.
    pub impl_params: String,
    /// The arguments that name the type: `<T>`.
    pub type_args: String,
    /// The where clause: `where T: Default`.
    pub where_clause: String,
}

/// A declaration handed to a derive: an enum, a struct or a union.
#[derive(Clone, Debug)]
pub struct DeriveInput {
    pub attrs: Vec<Attr>,
    pub ident: String,
    pub generics: Generics,
    pub data: Data,
}

/// An enum declaration handed to an attribute transform.
#[derive(Clone, Debug)]
pub struct ItemEnum {
    pub attrs: Vec<Attr>,
    /// The visibility as source text (empty for private).
    pub vis: String,
    pub ident: String,
    /// The generic parameter list as source text (empty when there is none).
    pub generics: String,
    /// The where clause as source text (empty when there is none).
    pub where_clause: String,
    pub variants: Vec<Variant>,
}

/// The identifiers of a sequence of variants.
pub open spec fn idents_of(vs: Seq<Variant>) -> Seq<Seq<char>> {
    vs.map_values(|v: Variant| v.ident@)
}

} // verus!
