//! Ternary conservation: the sum of a bottle's trits is the charge that
//! every transformation (routing, forwarding, processing) must preserve.

use crate::bottle::Bottle;
use crate::error::BottleError;
use vstd::prelude::*;

verus! {

/// The sum of a sequence of trits.
pub open spec fn trit_total(trits: Seq<i8>) -> int
    decreases trits.len(),
{
    if trits.len() == 0 {
        0
    } else {
        trit_total(trits.drop_last()) + trits.last()
    }
}

/// The charge of `trits` is representable as an `i32`, the type in which
/// the protocol reports it.
pub open spec fn charge_fits(trits: Seq<i8>) -> bool {
    i32::MIN <= trit_total(trits) <= i32::MAX
}

/// `output` carries the same ternary charge as `input`.
pub open spec fn conserved(input: Bottle, output: Bottle) -> bool {
    trit_total(input.trits@) == trit_total(output.trits@)
}

/// Conservation means equal sums, and nothing else: a charge of +1 is not
/// conserved as -1, nor as any other value.
pub proof fn lemma_conserved_means_equal_sums(input: Bottle, output: Bottle)
    ensures
        conserved(input, output) <==> trit_total(input.trits@) == trit_total(output.trits@),
        trit_total(input.trits@) != trit_total(output.trits@) ==> !conserved(input, output),
{
}

/// No trits carry no charge, and one trit carries its own value.
pub proof fn lemma_trit_total_small(t: i8)
    ensures
        trit_total(Seq::<i8>::empty()) == 0,
        trit_total(seq![t]) == t,
{
    assert(seq![t].drop_last() =~= Seq::<i8>::empty());
}

/// Appending one trit adds it to the sum.
pub proof fn lemma_trit_total_push(trits: Seq<i8>, t: i8)
    ensures
        trit_total(trits.push(t)) == trit_total(trits) + t,
{
    assert(trits.push(t).drop_last() =~= trits);
}

/// Each trit lies in -128..=127, so a sum of `n` of them lies in
/// `-128 * n ..= 127 * n`.
pub proof fn lemma_trit_total_bounds(trits: Seq<i8>)
    ensures
        -128 * trits.len() <= trit_total(trits) <= 127 * trits.len(),
    decreases trits.len(),
{
    if trits.len() > 0 {
        lemma_trit_total_bounds(trits.drop_last());
    }
}

/// The charge of two sequences of trits laid end to end is the sum of
/// their charges: splitting a bottle's trits in two, or merging two
/// bottles' trits, moves charge around without creating or destroying it.
pub proof fn lemma_trit_total_concat(a: Seq<i8>, b: Seq<i8>)
    ensures
        trit_total(a + b) == trit_total(a) + trit_total(b),
    decreases b.len(),
{
    if b.len() == 0 {
        assert(a + b =~= a);
    } else {
        lemma_trit_total_concat(a, b.drop_last());
        assert((a + b).drop_last() =~= a + b.drop_last());
    }
}

/// The sum of trits as a left fold that adds each trit in turn.
proof fn lemma_trit_total_is_fold(trits: Seq<i8>)
    ensures
        trit_total(trits) == trits.fold_left(0int, |acc: int, t: i8| acc + t),
    decreases trits.len(),
{
    if trits.len() > 0 {
        lemma_trit_total_is_fold(trits.drop_last());
    }
}

/// The charge does not depend on the order of the trits: two sequences that
/// hold the same trits, each as often, have the same sum.
pub proof fn lemma_trit_total_permutation(a: Seq<i8>, b: Seq<i8>)
    requires
        a.to_multiset() == b.to_multiset(),
    ensures
        trit_total(a) == trit_total(b),
{
    let add = |acc: int, t: i8| acc + t;
    assert(vstd::seq_lib::commutative_foldl(add));
    vstd::seq_lib::lemma_fold_left_permutation(a, b, add, 0int);
    lemma_trit_total_is_fold(a);
    lemma_trit_total_is_fold(b);
}

/// Reordering the trits of either bottle, and changing any of its other
/// fields (id, endpoints, action, encoding, payload, TTL), leaves the
/// audit's verdict as it was.
pub proof fn lemma_audit_sees_only_trit_multisets(a: Bottle, b: Bottle, a2: Bottle, b2: Bottle)
    requires
        a2.trits@.to_multiset() == a.trits@.to_multiset(),
        b2.trits@.to_multiset() == b.trits@.to_multiset(),
    ensures
        conserved(a2, b2) == conserved(a, b),
{
    lemma_trit_total_permutation(a2.trits@, a.trits@);
    lemma_trit_total_permutation(b2.trits@, b.trits@);
}

/// Conservation is an equivalence: every bottle conserves its own charge
/// (an identity transformation passes the audit), the audit does not depend
/// on which side is called input, and a chain of conserving steps conserves
/// end to end.
pub proof fn lemma_conservation_is_equivalence(a: Bottle, b: Bottle, c: Bottle)
    ensures
        conserved(a, a),
        conserved(a, b) == conserved(b, a),
        conserved(a, b) && conserved(b, c) ==> conserved(a, c),
{
}

/// Two bottles that carry the same trits carry the same charge, whatever
/// else differs between them (ids, endpoints, actions, payloads, TTLs).
pub proof fn lemma_same_trits_conserve(a: Bottle, b: Bottle)
    requires
        a.trits@ == b.trits@,
    ensures
        conserved(a, b),
{
}

/// Verify that the ternary charge is conserved between input and output
/// bottles: `true` exactly when their trit sums are equal.
pub fn audit(input: &Bottle, output: &Bottle) -> (ok: bool)
    requires
        charge_fits(input.trits@),
        charge_fits(output.trits@),
    ensures
        ok == conserved(*input, *output),
        ok <==> trit_total(input.trits@) == trit_total(output.trits@),
{
    input.trit_sum() == output.trit_sum()
}

/// Strict audit: `Ok` when the charge is conserved, and otherwise a
/// `Conservation` error that reports the input's sum as `expected` and the
/// output's as `actual`.
pub fn audit_strict(input: &Bottle, output: &Bottle) -> (res: Result<(), BottleError>)
    requires
        charge_fits(input.trits@),
        charge_fits(output.trits@),
    ensures
        res is Ok <==> conserved(*input, *output),
        res is Err ==> (res matches Err(BottleError::Conservation { expected, actual })
            && expected == trit_total(input.trits@)
            && actual == trit_total(output.trits@)),
        res is Ok <==> trit_total(input.trits@) == trit_total(output.trits@),
{
    let expected = input.trit_sum();
    let actual = output.trit_sum();
    if expected == actual {
        Ok(())
    } else {
        Err(BottleError::Conservation { expected, actual })
    }
}

} // verus!
