//! The synthesizers: the Rust source text of the `from_repr` function, of
//! the `From<T>` impl with an `Unknown` fallback, and of the enum copy whose
//! variants document their values.

use vstd::prelude::*;

use crate::discriminant::{
    explicits_of, explicits_of_variants, resolve_values, resolved, Explicit,
};
use crate::model::{Attr, Data, DeriveInput, Generics, ItemEnum, Variant};
use crate::numeral::{dec_text, hex_text, push_dec, push_hex};
use crate::repr::{extract_repr, repr_name, repr_of_attrs, ReprType};

verus! {

/// Why a derive produced no code.
#[derive(Clone, Copy, Debug, PartialEq, Eq, Structural)]
pub enum DeriveError {
    /// No `#[repr(..)]` attribute names an integer type.
    MissingRepr,
    /// The declaration is a struct or a union.
    NotAnEnum,
    /// The enum has no variant named `Unknown`.
    MissingUnknown,
}

/// The diagnostic for each error: the missing `#[repr(..)]` form, the
/// enums-only restriction, or the missing `Unknown` fallback variant.
pub open spec fn message_text(e: DeriveError) -> Seq<char> {
    match e {
        DeriveError::MissingRepr => "this derive requires a #[repr(...)] attribute naming an integer type (e.g., #[repr(u8)])"@,
        DeriveError::NotAnEnum => "this derive can only be used on enums"@,
        DeriveError::MissingUnknown => "FromReprWithUnknown requires a variant named `Unknown` as the fallback"@,
    }
}

impl DeriveError {
    /// The diagnostic reported at the derive's invocation site.
    pub fn message(&self) -> (r: &'static str)
        ensures
            r@ == message_text(*self),
    {
        match self {
            DeriveError::MissingRepr => "this derive requires a #[repr(...)] attribute naming an integer type (e.g., #[repr(u8)])",
            DeriveError::NotAnEnum => "this derive can only be used on enums",
            DeriveError::MissingUnknown => "FromReprWithUnknown requires a variant named `Unknown` as the fallback",
        }
    }
}

/// The name of the fallback variant.
pub open spec fn fallback_name() -> Seq<char> {
    "Unknown"@
}

/// Whether some variant is named `Unknown`.
pub open spec fn has_unknown(vs: Seq<Variant>) -> bool {
    exists|i: int| 0 <= i < vs.len() && vs[i].ident@ == fallback_name()
}

/// A result with its text as a sequence of characters.
pub open spec fn text_result(r: Result<String, DeriveError>) -> Result<Seq<char>, DeriveError> {
    match r {
        Ok(s) => Ok(s@),
        Err(e) => Err(e),
    }
}

/// The first `n` lines of `ls`, each followed by a newline.
pub open spec fn lines_upto(ls: Seq<String>, n: int) -> Seq<char>
    decreases n,
{
    if n <= 0 {
        Seq::empty()
    } else {
        lines_upto(ls, n - 1) + ls[n - 1]@ + "\n"@
    }
}

/// The text of the first `n` attributes, one per line.
pub open spec fn attrs_upto(attrs: Seq<Attr>, n: int) -> Seq<char>
    decreases n,
{
    if n <= 0 {
        Seq::empty()
    } else {
        attrs_upto(attrs, n - 1) + attrs[n - 1].text@ + "\n"@
    }
}

// ---------------------------------------------------------------------
// Fallible conversion
// ---------------------------------------------------------------------

/// The match arm that maps a variant's value to `Some` of that variant.
pub open spec fn option_arm(e: Seq<char>, t: Seq<char>, v: Seq<char>) -> Seq<char> {
    "v if v == "@ + e + "::"@ + v + " as "@ + t + " => Some("@ + e + "::"@ + v + "),\n"@
}

/// The arms of the first `n` variants, in declaration order.
pub open spec fn option_arms(e: Seq<char>, t: Seq<char>, vs: Seq<Variant>, n: int) -> Seq<char>
    decreases n,
{
    if n <= 0 {
        Seq::empty()
    } else {
        option_arms(e, t, vs, n - 1) + option_arm(e, t, vs[n - 1].ident@)
    }
}

/// The inherent impl holding `from_repr` for enum `e` represented by `t`.
pub open spec fn from_repr_text(e: Seq<char>, g: Generics, t: Seq<char>, vs: Seq<Variant>) -> Seq<char> {
    "impl"@ + g.impl_params@ + " "@ + e + g.type_args@ + " "@ + g.where_clause@ + " {\n"@
        + "/// Creates an enum from its integer representation.\n///\n"@
        + "/// Returns `None` if the integer does not match any variant.\n"@
        + "pub fn from_repr(value: "@ + t + ") -> Option<Self> {\nmatch value {\n"@
        + option_arms(e, t, vs, vs.len() as int)
        + "_ => None,\n}\n}\n}\n"@
}

/// What the fallible-conversion derive produces for a declaration.
pub open spec fn from_repr_as_option_output(ast: DeriveInput) -> Result<Seq<char>, DeriveError> {
    match repr_of_attrs(ast.attrs@) {
        None => Err(DeriveError::MissingRepr),
        Some(t) => match ast.data {
            Data::Enum(vs) => Ok(from_repr_text(ast.ident@, ast.generics, repr_name(t), vs@)),
            _ => Err(DeriveError::NotAnEnum),
        },
    }
}

// ---------------------------------------------------------------------
// Infallible conversion
// ---------------------------------------------------------------------

/// The match arm that maps a variant's value to that variant; none for the
/// fallback variant itself.
pub open spec fn from_arm(e: Seq<char>, t: Seq<char>, v: Seq<char>) -> Seq<char> {
    if v == fallback_name() {
        Seq::empty()
    } else {
        "v if v == "@ + e + "::"@ + v + " as "@ + t + " => "@ + e + "::"@ + v + ",\n"@
    }
}

/// The arms of the first `n` variants, in declaration order.
pub open spec fn from_arms(e: Seq<char>, t: Seq<char>, vs: Seq<Variant>, n: int) -> Seq<char>
    decreases n,
{
    if n <= 0 {
        Seq::empty()
    } else {
        from_arms(e, t, vs, n - 1) + from_arm(e, t, vs[n - 1].ident@)
    }
}

/// The `From<t>` impl for enum `e` whose unmatched values give `Unknown`.
pub open spec fn from_with_unknown_text(e: Seq<char>, g: Generics, t: Seq<char>, vs: Seq<Variant>) -> Seq<char> {
    "impl"@ + g.impl_params@ + " From<"@ + t + "> for "@ + e + g.type_args@ + " "@ + g.where_clause@ + " {\n"@
        + "fn from(value: "@ + t + ") -> Self {\nmatch value {\n"@
        + from_arms(e, t, vs, vs.len() as int)
        + "_ => "@ + e + "::Unknown,\n}\n}\n}\n"@
}

/// What the infallible-conversion derive produces for a declaration.
pub open spec fn from_repr_with_unknown_output(ast: DeriveInput) -> Result<Seq<char>, DeriveError> {
    match repr_of_attrs(ast.attrs@) {
        None => Err(DeriveError::MissingRepr),
        Some(t) => match ast.data {
            Data::Enum(vs) => if has_unknown(vs@) {
                Ok(from_with_unknown_text(ast.ident@, ast.generics, repr_name(t), vs@))
            } else {
                Err(DeriveError::MissingUnknown)
            },
            _ => Err(DeriveError::NotAnEnum),
        },
    }
}

// ---------------------------------------------------------------------
// Documented enum
// ---------------------------------------------------------------------

/// The generated documentation of a variant: `Name = 0xFF (255)`, or
/// `Name (unknown)` when its value is not known.
pub open spec fn doc_line(ident: Seq<char>, value: Option<u128>) -> Seq<char> {
    match value {
        Some(v) => ident + " = "@ + hex_text(v) + " ("@ + dec_text(v) + ")"@,
        None => ident + " (unknown)"@,
    }
}

/// The discriminant a variant is redeclared with: a literal's value cast to
/// the representation type, another expression as written, or none.
pub open spec fn discriminant_text(v: Variant, e: Explicit, t: ReprType) -> Seq<char> {
    match e {
        Explicit::Implicit => Seq::empty(),
        Explicit::Value(n) => " = "@ + dec_text(n) + "u128 as "@ + repr_name(t),
        Explicit::Opaque => match v.discriminant {
            Some(x) => " = "@ + x@,
            None => Seq::empty(),
        },
    }
}

/// A redeclared variant: its generated doc attribute, then its own
/// attributes, then the variant itself.
pub open spec fn documented_variant(v: Variant, e: Explicit, value: Option<u128>, t: ReprType) -> Seq<char> {
    "#[doc = \""@ + doc_line(v.ident@, value) + "\"]\n"@
        + lines_upto(v.attrs@, v.attrs@.len() as int)
        + v.ident@ + discriminant_text(v, e, t) + ",\n"@
}

/// The first `n` redeclared variants.
pub open spec fn documented_variants(
    vs: Seq<Variant>,
    es: Seq<Explicit>,
    values: Seq<Option<u128>>,
    t: ReprType,
    n: int,
) -> Seq<char>
    decreases n,
{
    if n <= 0 {
        Seq::empty()
    } else {
        documented_variants(vs, es, values, t, n - 1)
            + documented_variant(vs[n - 1], es[n - 1], values[n - 1], t)
    }
}

/// The representation type used for documentation: the declared one, or
/// `isize` when none is declared.
pub open spec fn doc_repr(attrs: Seq<Attr>) -> ReprType {
    match repr_of_attrs(attrs) {
        Some(t) => t,
        None => ReprType::Isize,
    }
}

/// The redeclared enum, given how each variant's discriminant reads.
pub open spec fn documented_enum(item: ItemEnum, es: Seq<Explicit>) -> Seq<char> {
    attrs_upto(item.attrs@, item.attrs@.len() as int)
        + item.vis@ + " enum "@ + item.ident@ + item.generics@ + " "@ + item.where_clause@ + " {\n"@
        + documented_variants(item.variants@, es, resolved(es), doc_repr(item.attrs@), item.variants@.len() as int)
        + "}\n"@
}

/// Appends each line of `ls` followed by a newline.
fn push_lines(out: &mut String, ls: &Vec<String>)
    ensures
        final(out)@ == old(out)@ + lines_upto(ls@, ls@.len() as int),
{
    let ghost before = out@;
    let mut i: usize = 0;
    while i < ls.len()
        invariant
            i <= ls@.len(),
            out@ == before + lines_upto(ls@, i as int),
        decreases ls@.len() - i,
    {
        out.append(ls[i].as_str());
        out.append("\n");
        i += 1;
    }
}

/// Appends the text of each attribute on a line of its own.
fn push_attrs(out: &mut String, attrs: &Vec<Attr>)
    ensures
        final(out)@ == old(out)@ + attrs_upto(attrs@, attrs@.len() as int),
{
    let ghost before = out@;
    let mut i: usize = 0;
    while i < attrs.len()
        invariant
            i <= attrs@.len(),
            out@ == before + attrs_upto(attrs@, i as int),
        decreases attrs@.len() - i,
    {
        out.append(attrs[i].text.as_str());
        out.append("\n");
        i += 1;
    }
}

/// Writes the inherent impl with `from_repr` for enum `e` with generics `g`,
/// represented by `t`.
pub fn from_repr_impl(e: &String, g: &Generics, t: ReprType, vs: &Vec<Variant>) -> (r: String)
    ensures
        r@ == from_repr_text(e@, *g, repr_name(t), vs@),
{
    let t_name = t.name();
    let mut out = String::from_str("impl");
    out.append(g.impl_params.as_str());
    out.append(" ");
    out.append(e.as_str());
    out.append(g.type_args.as_str());
    out.append(" ");
    out.append(g.where_clause.as_str());
    out.append(" {\n");
    out.append("/// Creates an enum from its integer representation.\n///\n");
    out.append("/// Returns `None` if the integer does not match any variant.\n");
    out.append("pub fn from_repr(value: ");
    out.append(t_name);
    out.append(") -> Option<Self> {\nmatch value {\n");
    let ghost head = out@;
    let mut i: usize = 0;
    while i < vs.len()
        invariant
            i <= vs@.len(),
            t_name@ == repr_name(t),
            out@ == head + option_arms(e@, t_name@, vs@, i as int),
        decreases vs@.len() - i,
    {
        let v = vs[i].ident.as_str();
        let ghost before = out@;
        out.append("v if v == ");
        out.append(e.as_str());
        out.append("::");
        out.append(v);
        out.append(" as ");
        out.append(t_name);
        out.append(" => Some(");
        out.append(e.as_str());
        out.append("::");
        out.append(v);
        out.append("),\n");
        assert(out@ == before + option_arm(e@, t_name@, vs@[i as int].ident@));
        i += 1;
    }
    out.append("_ => None,\n}\n}\n}\n");
    out
}

/// Writes the `From<t>` impl for enum `e` with generics `g` whose unmatched
/// values give `Unknown`; the `Unknown` variant itself gets no arm.
pub fn from_with_unknown_impl(e: &String, g: &Generics, t: ReprType, vs: &Vec<Variant>) -> (r: String)
    ensures
        r@ == from_with_unknown_text(e@, *g, repr_name(t), vs@),
{
    let t_name = t.name();
    let unknown = String::from_str("Unknown");
    let mut out = String::from_str("impl");
    out.append(g.impl_params.as_str());
    out.append(" From<");
    out.append(t_name);
    out.append("> for ");
    out.append(e.as_str());
    out.append(g.type_args.as_str());
    out.append(" ");
    out.append(g.where_clause.as_str());
    out.append(" {\n");
    out.append("fn from(value: ");
    out.append(t_name);
    out.append(") -> Self {\nmatch value {\n");
    let ghost head = out@;
    let mut i: usize = 0;
    while i < vs.len()
        invariant
            i <= vs@.len(),
            t_name@ == repr_name(t),
            unknown@ == fallback_name(),
            out@ == head + from_arms(e@, t_name@, vs@, i as int),
        decreases vs@.len() - i,
    {
        let ghost before = out@;
        if vs[i].ident != unknown {
            let v = vs[i].ident.as_str();
            out.append("v if v == ");
            out.append(e.as_str());
            out.append("::");
            out.append(v);
            out.append(" as ");
            out.append(t_name);
            out.append(" => ");
            out.append(e.as_str());
            out.append("::");
            out.append(v);
            out.append(",\n");
        }
        assert(out@ == before + from_arm(e@, t_name@, vs@[i as int].ident@));
        i += 1;
    }
    out.append("_ => ");
    out.append(e.as_str());
    out.append("::Unknown,\n}\n}\n}\n");
    out
}

/// Whether some variant is named `Unknown`.
pub fn has_unknown_variant(vs: &Vec<Variant>) -> (r: bool)
    ensures
        r == has_unknown(vs@),
{
    let unknown = String::from_str("Unknown");
    let mut i: usize = 0;
    while i < vs.len()
        invariant
            i <= vs@.len(),
            unknown@ == fallback_name(),
            forall|k: int| 0 <= k < i ==> vs@[k].ident@ != fallback_name(),
        decreases vs@.len() - i,
    {
        if vs[i].ident == unknown {
            return true;
        }
        i += 1;
    }
    false
}

/// The fallible-conversion derive: an inherent
/// `from_repr(value: T) -> Option<Self>` that compares `value` with each
/// variant cast to `T`, in declaration order, and gives `None` when none
/// matches. Fails when no integer `repr` is declared, or on a struct or union.
pub fn from_repr_as_option_derive_impl(ast: &DeriveInput) -> (r: Result<String, DeriveError>)
    ensures
        text_result(r) == from_repr_as_option_output(*ast),
{
    let t = match extract_repr(&ast.attrs) {
        Some(t) => t,
        None => return Err(DeriveError::MissingRepr),
    };
    match &ast.data {
        Data::Enum(vs) => Ok(from_repr_impl(&ast.ident, &ast.generics, t, vs)),
        _ => Err(DeriveError::NotAnEnum),
    }
}

/// The infallible-conversion derive: `impl From<T>` that compares the value
/// with each variant but `Unknown` cast to `T`, in declaration order, and
/// gives `Unknown` when none matches. Fails when no integer `repr` is
/// declared, on a struct or union, and on an enum without an `Unknown`
/// variant.
pub fn from_repr_with_unknown_derive_impl(ast: &DeriveInput) -> (r: Result<String, DeriveError>)
    ensures
        text_result(r) == from_repr_with_unknown_output(*ast),
{
    let t = match extract_repr(&ast.attrs) {
        Some(t) => t,
        None => return Err(DeriveError::MissingRepr),
    };
    match &ast.data {
        Data::Enum(vs) => if has_unknown_variant(vs) {
            Ok(from_with_unknown_impl(&ast.ident, &ast.generics, t, vs))
        } else {
            Err(DeriveError::MissingUnknown)
        },
        _ => Err(DeriveError::NotAnEnum),
    }
}

/// Appends the generated doc text of a variant.
fn push_doc_line(out: &mut String, ident: &String, value: Option<u128>)
    ensures
        final(out)@ == old(out)@ + doc_line(ident@, value),
{
    let ghost before = out@;
    out.append(ident.as_str());
    match value {
        Some(v) => {
            out.append(" = ");
            push_hex(out, v);
            out.append(" (");
            push_dec(out, v);
            out.append(")");
        },
        None => {
            out.append(" (unknown)");
        },
    }
    assert(out@ == before + doc_line(ident@, value));
}

/// Appends a redeclared variant.
fn push_documented_variant(out: &mut String, v: &Variant, e: Explicit, value: Option<u128>, t: ReprType)
    ensures
        final(out)@ == old(out)@ + documented_variant(*v, e, value, t),
{
    let ghost before = out@;
    out.append("#[doc = \"");
    push_doc_line(out, &v.ident, value);
    out.append("\"]\n");
    push_lines(out, &v.attrs);
    out.append(v.ident.as_str());
    let ghost mid = out@;
    match e {
        Explicit::Implicit => {},
        Explicit::Value(n) => {
            out.append(" = ");
            push_dec(out, n);
            out.append("u128 as ");
            out.append(t.name());
        },
        Explicit::Opaque => match &v.discriminant {
            Some(x) => {
                out.append(" = ");
                out.append(x.as_str());
            },
            None => {},
        },
    }
    assert(out@ == mid + discriminant_text(*v, e, t));
    out.append(",\n");
    assert(out@ == before + documented_variant(*v, e, value, t));
}

/// Writes the enum again with a doc attribute on each variant giving its
/// value in hexadecimal and decimal, `es` saying how each variant's
/// discriminant reads. Attributes, visibility, name and generics are kept;
/// a literal discriminant is kept as its value cast to the representation
/// type (`isize` when none is declared), another expression as written.
pub fn render_enum_with_docs(item: &ItemEnum, es: &Vec<Explicit>) -> (r: String)
    requires
        es@.len() == item.variants@.len(),
    ensures
        r@ == documented_enum(*item, es@),
{
    let t = match extract_repr(&item.attrs) {
        Some(t) => t,
        None => ReprType::Isize,
    };
    let values = resolve_values(es);
    let mut out = String::new();
    push_attrs(&mut out, &item.attrs);
    out.append(item.vis.as_str());
    out.append(" enum ");
    out.append(item.ident.as_str());
    out.append(item.generics.as_str());
    out.append(" ");
    out.append(item.where_clause.as_str());
    out.append(" {\n");
    let ghost head = out@;
    let mut i: usize = 0;
    while i < item.variants.len()
        invariant
            i <= item.variants@.len(),
            es@.len() == item.variants@.len(),
            values@ == resolved(es@),
            t == doc_repr(item.attrs@),
            out@ == head + documented_variants(item.variants@, es@, values@, t, i as int),
        decreases item.variants@.len() - i,
    {
        push_documented_variant(&mut out, &item.variants[i], es[i], values[i], t);
        i += 1;
    }
    out.append("}\n");
    out
}

/// The documentation transform: the enum written again with each variant's
/// resolved value in its documentation.
pub fn generate_enum_with_docs(input: &ItemEnum) -> (r: String)
    ensures
        r@ == documented_enum(*input, explicits_of(input.variants@)),
{
    let es = explicits_of_variants(&input.variants);
    render_enum_with_docs(input, &es)
}

} // verus!
