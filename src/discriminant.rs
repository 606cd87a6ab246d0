//! The discriminant resolver: the value of each variant under the C-like
//! rule (explicit literal, or one past the variant before).

use vstd::prelude::*;

use crate::model::Variant;

verus! {

/// What a variant's explicit discriminant says about its value.
#[derive(Clone, Copy, Debug, PartialEq, Eq, Structural)]
pub enum Explicit {
    /// No explicit discriminant: the value follows the variant before.
    Implicit,
    /// An integer literal with this value.
    Value(u128),
    /// An expression that is not an integer literal: its value is not known
    /// here.
    Opaque,
}

/// The value an integer-literal expression denotes, as syn reads it
/// (`0xFF`, `1_000u16`, `0b101`); `None` for any other expression and for
/// a literal above `u128::MAX`.
pub uninterp spec fn int_literal_value(expr: Seq<char>) -> Option<u128>;

/// Relies on `syn::parse_str::<syn::Expr>` and `syn::LitInt::base10_parse`:
/// the expression is parsed, and when it is an integer literal its value is
/// read as an `u128`.
#[verifier::external_body]
fn parse_int_literal(expr: &str) -> (r: Option<u128>)
    ensures
        r == int_literal_value(expr@),
{
    match syn::parse_str::<syn::Expr>(expr) {
        Ok(syn::Expr::Lit(syn::ExprLit { lit: syn::Lit::Int(lit), .. })) => lit.base10_parse::<u128>().ok(),
        _ => None,
    }
}

/// How a variant's discriminant is read.
pub open spec fn explicit_of(v: Variant) -> Explicit {
    match v.discriminant {
        None => Explicit::Implicit,
        Some(e) => match int_literal_value(e@) {
            Some(n) => Explicit::Value(n),
            None => Explicit::Opaque,
        },
    }
}

/// How each of a sequence of variants' discriminants is read.
pub open spec fn explicits_of(vs: Seq<Variant>) -> Seq<Explicit> {
    vs.map_values(|v: Variant| explicit_of(v))
}

/// The value of a variant, given the running counter before it.
pub open spec fn value_with(counter: Option<u128>, e: Explicit) -> Option<u128> {
    match e {
        Explicit::Implicit => counter,
        Explicit::Value(n) => Some(n),
        Explicit::Opaque => None,
    }
}

/// The running counter after a variant: one past its value, unknown when
/// its value is unknown or is `u128::MAX`, the largest value a literal can
/// give.
pub open spec fn counter_after_one(counter: Option<u128>, e: Explicit) -> Option<u128> {
    match value_with(counter, e) {
        Some(v) => if v < u128::MAX {
            Some((v + 1) as u128)
        } else {
            None
        },
        None => None,
    }
}

/// The running counter after a sequence of variants; it starts at zero.
pub open spec fn counter_after(es: Seq<Explicit>) -> Option<u128>
    decreases es.len(),
{
    if es.len() == 0 {
        Some(0)
    } else {
        counter_after_one(counter_after(es.drop_last()), es.last())
    }
}

/// The resolved value of the variant at index `i`.
pub open spec fn resolved_at(es: Seq<Explicit>, i: int) -> Option<u128> {
    value_with(counter_after(es.take(i)), es[i])
}

/// The resolved value of every variant, in order.
pub open spec fn resolved(es: Seq<Explicit>) -> Seq<Option<u128>> {
    Seq::new(es.len(), |i: int| resolved_at(es, i))
}

/// Reads a variant's discriminant: absent, an integer literal, or another
/// expression.
pub fn explicit_of_variant(v: &Variant) -> (r: Explicit)
    ensures
        r == explicit_of(*v),
{
    match &v.discriminant {
        None => Explicit::Implicit,
        Some(e) => match parse_int_literal(e.as_str()) {
            Some(n) => Explicit::Value(n),
            None => Explicit::Opaque,
        },
    }
}

/// Reads the discriminant of each variant, in order.
pub fn explicits_of_variants(vs: &Vec<Variant>) -> (r: Vec<Explicit>)
    ensures
        r@ == explicits_of(vs@),
{
    let mut out: Vec<Explicit> = Vec::new();
    let mut i: usize = 0;
    while i < vs.len()
        invariant
            i <= vs@.len(),
            out@ == explicits_of(vs@.take(i as int)),
        decreases vs@.len() - i,
    {
        let e = explicit_of_variant(&vs[i]);
        out.push(e);
        assert(vs@.take(i + 1) == vs@.take(i as int).push(vs@[i as int]));
        i += 1;
    }
    assert(vs@.take(vs@.len() as int) == vs@);
    out
}

/// Resolves each variant's value in declaration order. A running counter
/// starts at zero; a literal gives its own value, a variant without a
/// discriminant takes the counter's value, and the counter then moves one
/// past the value just given. A non-literal expression has no known value
/// and leaves the counter unknown until the next literal.
pub fn resolve_values(es: &Vec<Explicit>) -> (r: Vec<Option<u128>>)
    ensures
        r@ == resolved(es@),
{
    let mut out: Vec<Option<u128>> = Vec::new();
    let mut counter: Option<u128> = Some(0);
    let mut i: usize = 0;
    while i < es.len()
        invariant
            i <= es@.len(),
            counter == counter_after(es@.take(i as int)),
            out@ == resolved(es@.take(i as int)),
        decreases es@.len() - i,
    {
        let e = es[i];
        let value = match e {
            Explicit::Implicit => counter,
            Explicit::Value(n) => Some(n),
            Explicit::Opaque => None,
        };
        counter = match value {
            Some(v) => if v < u128::MAX {
                Some(v + 1)
            } else {
                None
            },
            None => None,
        };
        out.push(value);
        proof {
            let t = es@.take(i as int);
            let t1 = es@.take(i + 1);
            assert(t1.drop_last() == t);
            assert(t1.last() == e);
            assert forall|k: int| 0 <= k < i implies t1.take(k) == t.take(k) by {}
            assert(resolved(t1) =~= resolved(t).push(value));
        }
        i += 1;
    }
    assert(es@.take(es@.len() as int) == es@);
    out
}

/// Resolves the value of each variant of an enum.
pub fn resolve_discriminants(vs: &Vec<Variant>) -> (r: Vec<Option<u128>>)
    ensures
        r@ == resolved(explicits_of(vs@)),
{
    let es = explicits_of_variants(vs);
    resolve_values(&es)
}

/// Each variant without a discriminant given, as a literal, the value
/// resolved for it; variants whose value is unknown are left as they are.
pub open spec fn with_values_made_explicit(es: Seq<Explicit>) -> Seq<Explicit> {
    Seq::new(
        es.len(),
        |i: int|
            match (es[i], resolved_at(es, i)) {
                (Explicit::Implicit, Some(v)) => Explicit::Value(v),
                _ => es[i],
            },
    )
}

/// The reported values are stable: writing each resolved value out as the
/// variant's literal resolves to the same values.
pub proof fn lemma_resolution_stable(es: Seq<Explicit>)
    ensures
        resolved(with_values_made_explicit(es)) == resolved(es),
{
    let es2 = with_values_made_explicit(es);
    assert forall|i: int| 0 <= i <= es.len() implies counter_after(es2.take(i)) == counter_after(es.take(i)) by {
        lemma_counter_agrees(es, i);
    }
    assert forall|i: int| 0 <= i < es.len() implies resolved_at(es2, i) == resolved_at(es, i) by {
        lemma_counter_agrees(es, i);
    }
    assert(resolved(es2) =~= resolved(es));
}

proof fn lemma_counter_agrees(es: Seq<Explicit>, i: int)
    requires
        0 <= i <= es.len(),
    ensures
        counter_after(with_values_made_explicit(es).take(i)) == counter_after(es.take(i)),
    decreases i,
{
    let es2 = with_values_made_explicit(es);
    if i > 0 {
        lemma_counter_agrees(es, i - 1);
        assert(es2.take(i).drop_last() =~= es2.take(i - 1));
        assert(es.take(i).drop_last() =~= es.take(i - 1));
        assert(es2.take(i).last() == es2[i - 1]);
        assert(es.take(i).last() == es[i - 1]);
    }
}

} // verus!
