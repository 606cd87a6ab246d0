//! What the generated conversions compute when they run.
//!
//! The generated code compares its argument with each variant cast to the
//! representation type, in declaration order, and the first equal one wins.
//! Here `discs[i]` stands for the value of variant `i` so cast, as the
//! compiler resolves it, then cast on to `u128`; the argument is cast the
//! same way. From any one integer type that last cast keeps distinct values
//! distinct, so equality is as in the representation type. A result is a
//! variant's index.

use vstd::prelude::*;

use crate::model::Variant;
use crate::synth::fallback_name;

verus! {

/// The first index from `i` on whose arm exists (`!skip[k]`) and whose
/// value equals `x`.
pub open spec fn first_arm_from(discs: Seq<u128>, skip: Seq<bool>, x: u128, i: int) -> Option<int>
    decreases discs.len() - i,
{
    if i < 0 || i >= discs.len() {
        None
    } else if !skip[i] && discs[i] == x {
        Some(i)
    } else {
        first_arm_from(discs, skip, x, i + 1)
    }
}

/// Every variant has an arm.
pub open spec fn no_skip(n: nat) -> Seq<bool> {
    Seq::new(n, |_i: int| false)
}

/// The variants that have no arm: those named `Unknown`.
pub open spec fn fallback_mask(vs: Seq<Variant>) -> Seq<bool> {
    Seq::new(vs.len(), |i: int| vs[i].ident@ == fallback_name())
}

/// The first variant from `i` on named `Unknown`.
pub open spec fn first_fallback_from(vs: Seq<Variant>, i: int) -> Option<int>
    decreases vs.len() - i,
{
    if i < 0 || i >= vs.len() {
        None
    } else if vs[i].ident@ == fallback_name() {
        Some(i)
    } else {
        first_fallback_from(vs, i + 1)
    }
}

/// What the generated `from_repr(x)` returns.
pub open spec fn from_repr_value(discs: Seq<u128>, x: u128) -> Option<int> {
    first_arm_from(discs, no_skip(discs.len()), x, 0)
}

/// What the generated `From::from(x)` returns; `None` only for an enum
/// without an `Unknown` variant, for which nothing is generated.
pub open spec fn with_unknown_value(vs: Seq<Variant>, discs: Seq<u128>, x: u128) -> Option<int> {
    match first_arm_from(discs, fallback_mask(vs), x, 0) {
        Some(i) => Some(i),
        None => first_fallback_from(vs, 0),
    }
}

/// An index as an integer.
pub open spec fn index_of(r: Option<usize>) -> Option<int> {
    match r {
        Some(i) => Some(i as int),
        None => None,
    }
}

/// No two values are equal.
pub open spec fn distinct(discs: Seq<u128>) -> bool {
    forall|i: int, j: int| 0 <= i < discs.len() && 0 <= j < discs.len() && i != j ==> discs[i] != discs[j]
}

/// The variant at `i` is not the fallback.
pub open spec fn is_matched_variant(vs: Seq<Variant>, i: int) -> bool {
    0 <= i < vs.len() && vs[i].ident@ != fallback_name()
}

/// The index the first arm search stops at: a matching arm with no matching
/// arm before it, or none at all.
pub proof fn lemma_first_arm(discs: Seq<u128>, skip: Seq<bool>, x: u128, i: int)
    requires
        skip.len() == discs.len(),
        0 <= i <= discs.len(),
    ensures
        match first_arm_from(discs, skip, x, i) {
            Some(j) => i <= j < discs.len() && !skip[j] && discs[j] == x
                && forall|k: int| i <= k < j ==> skip[k] || discs[k] != x,
            None => forall|k: int| i <= k < discs.len() ==> skip[k] || discs[k] != x,
        },
    decreases discs.len() - i,
{
    if i < discs.len() {
        lemma_first_arm(discs, skip, x, i + 1);
    }
}

/// The first variant named `Unknown` from `i` on, if any.
pub proof fn lemma_first_fallback(vs: Seq<Variant>, i: int)
    requires
        0 <= i <= vs.len(),
    ensures
        match first_fallback_from(vs, i) {
            Some(j) => i <= j < vs.len() && vs[j].ident@ == fallback_name()
                && forall|k: int| i <= k < j ==> vs[k].ident@ != fallback_name(),
            None => forall|k: int| i <= k < vs.len() ==> vs[k].ident@ != fallback_name(),
        },
    decreases vs.len() - i,
{
    if i < vs.len() {
        lemma_first_fallback(vs, i + 1);
    }
}

/// Runs the generated `from_repr` on `value`: the index of the first
/// variant whose value equals it, or `None`.
pub fn select_from_repr(discs: &Vec<u128>, value: u128) -> (r: Option<usize>)
    ensures
        index_of(r) == from_repr_value(discs@, value),
{
    let ghost skip = no_skip(discs@.len());
    let mut i: usize = 0;
    while i < discs.len()
        invariant
            i <= discs@.len(),
            skip == no_skip(discs@.len()),
            from_repr_value(discs@, value) == first_arm_from(discs@, skip, value, i as int),
        decreases discs@.len() - i,
    {
        if discs[i] == value {
            return Some(i);
        }
        i += 1;
    }
    None
}

/// Runs the generated `From::from` on `value`: the index of the first
/// variant other than `Unknown` whose value equals it, else the index of
/// `Unknown`; `None` when there is no `Unknown` variant.
pub fn select_with_unknown(vs: &Vec<Variant>, discs: &Vec<u128>, value: u128) -> (r: Option<usize>)
    requires
        discs@.len() == vs@.len(),
    ensures
        index_of(r) == with_unknown_value(vs@, discs@, value),
{
    let unknown = String::from_str("Unknown");
    let ghost skip = fallback_mask(vs@);
    let mut i: usize = 0;
    while i < discs.len()
        invariant
            i <= discs@.len(),
            discs@.len() == vs@.len(),
            unknown@ == fallback_name(),
            skip == fallback_mask(vs@),
            first_arm_from(discs@, skip, value, 0) == first_arm_from(discs@, skip, value, i as int),
        decreases discs@.len() - i,
    {
        if vs[i].ident != unknown && discs[i] == value {
            return Some(i);
        }
        i += 1;
    }
    let mut j: usize = 0;
    while j < vs.len()
        invariant
            j <= vs@.len(),
            unknown@ == fallback_name(),
            skip == fallback_mask(vs@),
            first_arm_from(discs@, skip, value, 0) is None,
            first_fallback_from(vs@, 0) == first_fallback_from(vs@, j as int),
        decreases vs@.len() - j,
    {
        if vs[j].ident == unknown {
            return Some(j);
        }
        j += 1;
    }
    None
}

/// With distinct values, the generated `from_repr(x)` gives variant `i`
/// exactly when `x` is the value of variant `i`, and `None` when `x` is no
/// variant's value.
pub proof fn lemma_from_repr_exact(discs: Seq<u128>, x: u128)
    requires
        distinct(discs),
    ensures
        forall|i: int| 0 <= i < discs.len() ==> (from_repr_value(discs, x) == Some(i) <==> discs[i] == x),
        (forall|i: int| 0 <= i < discs.len() ==> discs[i] != x) ==> from_repr_value(discs, x) is None,
{
    lemma_first_arm(discs, no_skip(discs.len()), x, 0);
}

/// Round trip: the generated `from_repr` applied to a variant's own value
/// gives a variant with that value, no later than it; with distinct values,
/// the variant itself.
pub proof fn lemma_from_repr_round_trip(discs: Seq<u128>, i: int)
    requires
        0 <= i < discs.len(),
    ensures
        from_repr_value(discs, discs[i]) is Some,
        from_repr_value(discs, discs[i])->0 <= i,
        discs[from_repr_value(discs, discs[i])->0] == discs[i],
        distinct(discs) ==> from_repr_value(discs, discs[i]) == Some(i),
{
    lemma_first_arm(discs, no_skip(discs.len()), discs[i], 0);
}

/// For an enum with one `Unknown` variant at `u` whose other variants have
/// distinct values, the generated `From::from(x)` gives the variant whose
/// value is `x`, and `Unknown` for every other `x`.
pub proof fn lemma_with_unknown_exact(vs: Seq<Variant>, discs: Seq<u128>, u: int, x: u128)
    requires
        discs.len() == vs.len(),
        0 <= u < vs.len(),
        vs[u].ident@ == fallback_name(),
        forall|k: int| 0 <= k < vs.len() && vs[k].ident@ == fallback_name() ==> k == u,
        forall|i: int, j: int|
            is_matched_variant(vs, i) && is_matched_variant(vs, j) && i != j ==> discs[i] != discs[j],
    ensures
        forall|i: int| is_matched_variant(vs, i) && discs[i] == x ==> with_unknown_value(vs, discs, x) == Some(i),
        (forall|i: int| is_matched_variant(vs, i) ==> discs[i] != x) ==> with_unknown_value(vs, discs, x) == Some(u),
{
    lemma_first_arm(discs, fallback_mask(vs), x, 0);
    lemma_first_fallback(vs, 0);
}

/// An enum whose only variant is `Unknown` converts every value to it.
pub proof fn lemma_only_unknown(vs: Seq<Variant>, discs: Seq<u128>, x: u128)
    requires
        vs.len() == 1,
        discs.len() == 1,
        vs[0].ident@ == fallback_name(),
    ensures
        with_unknown_value(vs, discs, x) == Some(0int),
{
    lemma_first_arm(discs, fallback_mask(vs), x, 0);
    lemma_first_fallback(vs, 0);
}

} // verus!
