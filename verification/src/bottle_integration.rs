//! Bridge between fleet vote aggregates and the bottle protocol: the
//! envelope trits that summarise an aggregate, and the conservation check
//! between two bottles of a chain.
//!
//! trits[0] is the relative acceptance of the vote, trits[1] the quantized
//! confidence, trits[2] the direction of the net sentiment. The confidence
//! and the sentiment are fractions; they are quantized to trits by the
//! caller, and enter here as those trits.

use crate::bottle::{Bottle, Trit};
use crate::conservation::{audit_strict, charge_fits, conserved, trit_total};
use crate::error::BottleError;
use vstd::prelude::*;

verus! {

/// Bridge between aggregate results and the Bottle protocol.
pub struct BottleIntegration;

/// Relative acceptance of a vote of `total` ballots: +1 whenever
/// acceptances outnumber rejections; -1 when rejections outnumber
/// acceptances and form a strict majority of all ballots; 0 otherwise (a
/// rejection lead without majority, a tie, or no votes).
pub open spec fn acceptance_trit(total: int, accept: int, reject: int) -> int {
    if accept > reject {
        1
    } else if reject > accept && 2 * reject > total {
        -1
    } else {
        0
    }
}

/// The envelope trits of an aggregate of `total` ballots.
pub open spec fn aggregate_trits(
    total: int,
    accept: int,
    reject: int,
    confidence_level: Trit,
    sentiment_direction: Trit,
) -> Seq<Trit> {
    seq![
        acceptance_trit(total, accept, reject) as i8,
        if total == 0 { 0i8 } else { confidence_level },
        sentiment_direction,
    ]
}

/// The bottle's envelope carries `direction` as its sentiment trit
/// (`trits[2]`).
pub open spec fn sentiment_matches(bottle: Bottle, direction: Trit) -> bool {
    bottle.trits@.len() > 2 && bottle.trits@[2] == direction
}

/// More acceptance, more confidence or more positive sentiment never lowers
/// an envelope trit; more rejection never raises the acceptance trit.
pub proof fn lemma_aggregate_trits_monotonic(
    total: int,
    accept_lo: int,
    accept_hi: int,
    reject_lo: int,
    reject_hi: int,
    confidence_lo: Trit,
    confidence_hi: Trit,
    sentiment_lo: Trit,
    sentiment_hi: Trit,
)
    requires
        accept_lo <= accept_hi,
        reject_lo <= reject_hi,
        confidence_lo <= confidence_hi,
        sentiment_lo <= sentiment_hi,
    ensures
        forall|i: int|
            0 <= i < 3 ==> #[trigger] aggregate_trits(
                total,
                accept_lo,
                reject_hi,
                confidence_lo,
                sentiment_lo,
            )[i] <= aggregate_trits(total, accept_hi, reject_lo, confidence_hi, sentiment_hi)[i],
{
}

/// Where the leading side holds a strict majority, swapping acceptances and
/// rejections flips the acceptance trit. (A rejection lead without majority
/// gives 0, while the same acceptance lead gives +1.)
pub proof fn lemma_acceptance_antisymmetric(total: int, accept: int, reject: int)
    requires
        accept > reject ==> 2 * accept > total,
        reject > accept ==> 2 * reject > total,
    ensures
        acceptance_trit(total, accept, reject) == -acceptance_trit(total, reject, accept),
{
}

/// The acceptance trit is a trit; it is +1 exactly when acceptances are
/// ahead, -1 only when rejections are ahead and form a strict majority, and
/// 0 for a tie, in particular for a vote with no acceptances and no
/// rejections.
pub proof fn lemma_acceptance_is_trit(total: int, accept: int, reject: int)
    ensures
        -1 <= acceptance_trit(total, accept, reject) <= 1,
        acceptance_trit(total, accept, reject) == 1 <==> accept > reject,
        acceptance_trit(total, accept, reject) == -1 <==> reject > accept && 2 * reject > total,
        accept == reject ==> acceptance_trit(total, accept, reject) == 0,
{
}

/// What each envelope trit of an aggregate says, in terms of the vote: the
/// first is +1 exactly when acceptances lead, -1 exactly when rejections
/// lead with a strict majority of the ballots, 0 otherwise; the second is
/// the confidence level whatever the vote counts, once there is at least
/// one ballot, and 0 for an empty vote; the third is the sentiment
/// direction, always.
pub proof fn lemma_aggregate_trits_meaning(
    total: int,
    accept: int,
    reject: int,
    confidence_level: Trit,
    sentiment_direction: Trit,
)
    ensures
        aggregate_trits(total, accept, reject, confidence_level, sentiment_direction).len() == 3,
        aggregate_trits(total, accept, reject, confidence_level, sentiment_direction)[0] == 1
            <==> accept > reject,
        aggregate_trits(total, accept, reject, confidence_level, sentiment_direction)[0] == -1
            <==> reject > accept && 2 * reject > total,
        aggregate_trits(total, accept, reject, confidence_level, sentiment_direction)[0] == 0
            <==> !(accept > reject) && !(reject > accept && 2 * reject > total),
        total != 0 ==> aggregate_trits(total, accept, reject, confidence_level, sentiment_direction)[1]
            == confidence_level,
        total == 0 ==> aggregate_trits(total, accept, reject, confidence_level, sentiment_direction)[1]
            == 0,
        aggregate_trits(total, accept, reject, confidence_level, sentiment_direction)[2]
            == sentiment_direction,
{
}

/// The sentiment check reads the third trit alone: a bottle whose trits are
/// `[t0, t1, d]` matches direction `d`, whatever `t0` and `t1` are, and
/// matches no other direction; a bottle with fewer than three trits matches
/// none.
pub proof fn lemma_sentiment_reads_third_trit(bottle: Bottle, t0: Trit, t1: Trit, d: Trit, other: Trit)
    ensures
        bottle.trits@ == seq![t0, t1, d] ==> sentiment_matches(bottle, d),
        bottle.trits@ == seq![t0, t1, d] && other != d ==> !sentiment_matches(bottle, other),
        bottle.trits@.len() < 3 ==> !sentiment_matches(bottle, other),
{
}

/// Given confidence and sentiment trits, every envelope trit is -1, 0 or
/// +1, so the envelope carries a charge of at most three in size, which
/// always fits the protocol's `i32` charge.
pub proof fn lemma_aggregate_trits_charge(
    total: int,
    accept: int,
    reject: int,
    confidence_level: Trit,
    sentiment_direction: Trit,
)
    requires
        -1 <= confidence_level <= 1,
        -1 <= sentiment_direction <= 1,
    ensures
        forall|i: int| 0 <= i < 3 ==> -1 <= #[trigger] aggregate_trits(total, accept, reject, confidence_level, sentiment_direction)[i] <= 1,
        -3 <= trit_total(aggregate_trits(total, accept, reject, confidence_level, sentiment_direction)) <= 3,
        charge_fits(aggregate_trits(total, accept, reject, confidence_level, sentiment_direction)),
{
    let t = aggregate_trits(total, accept, reject, confidence_level, sentiment_direction);
    let t2 = t.drop_last();
    let t1 = t2.drop_last();
    let t0 = t1.drop_last();
    assert(t0 =~= Seq::<i8>::empty());
    assert(t1.last() == t[0] && t2.last() == t[1] && t.last() == t[2]);
    assert(t0.len() == 0);
    assert(trit_total(t0) == 0);
    assert(trit_total(t1) == t[0]);
    assert(trit_total(t2) == t[0] + t[1]);
    assert(trit_total(t) == t[0] + t[1] + t[2]);
}

impl BottleIntegration {
    /// Compute envelope trits from an aggregate of `total` ballots of which
    /// `accept` accept and `reject` reject, given the aggregate's
    /// confidence already quantized to `confidence_level` (-1 low, 0
    /// moderate, +1 high) and its net sentiment quantized to
    /// `sentiment_direction`.
    ///
    /// trits[0]: relative acceptance: +1 when acceptances outnumber
    /// rejections, -1 when rejections outnumber acceptances and form a
    /// majority, 0 otherwise
    /// trits[1]: confidence level, or 0 when there are no votes
    /// trits[2]: net sentiment direction
    pub fn compute_trits(
        total: usize,
        accept: usize,
        reject: usize,
        confidence_level: Trit,
        sentiment_direction: Trit,
    ) -> (trits: Vec<Trit>)
        requires
            -1 <= confidence_level <= 1,
            -1 <= sentiment_direction <= 1,
        ensures
            trits@ == aggregate_trits(
                total as int,
                accept as int,
                reject as int,
                confidence_level,
                sentiment_direction,
            ),
            trits@.len() == 3,
            trits@[0] == 1 <==> accept > reject,
            trits@[0] == -1 <==> reject > accept && 2 * reject > total,
            trits@[0] == 0 <==> !(accept > reject) && !(reject > accept && 2 * reject > total),
            total != 0 ==> trits@[1] == confidence_level,
            total == 0 ==> trits@[1] == 0,
            trits@[2] == sentiment_direction,
    {
        let t0: Trit = if accept > reject {
            1  // acceptances outnumber rejections
        } else if reject > accept {
            if reject > total / 2 {
                -1  // clear rejection
            } else {
                0  // slight rejection but not majority
            }
        } else {
            0  // exactly split or no votes
        };
        let t1: Trit = if total == 0 {
            0
        } else {
            confidence_level
        };
        let mut trits: Vec<Trit> = Vec::new();
        trits.push(t0);
        trits.push(t1);
        trits.push(sentiment_direction);
        assert(trits@ =~= aggregate_trits(
            total as int,
            accept as int,
            reject as int,
            confidence_level,
            sentiment_direction,
        ));
        trits
    }

    /// Verify conservation between two bottles of a chain: the output must
    /// carry the input's trit sum, and each bottle's sentiment trit
    /// (`trits[2]`) must match the sentiment direction of the aggregate its
    /// payload holds (`input_direction`, `output_direction`, quantized from
    /// the decoded payloads by the caller). A differing sum gives a
    /// `Conservation` error with both sums; with equal sums, a bottle whose
    /// sentiment trit is missing or differs gives a `Validation` error.
    pub fn validate_conservation(
        input: &Bottle,
        output: &Bottle,
        input_direction: Trit,
        output_direction: Trit,
    ) -> (res: Result<(), BottleError>)
        requires
            charge_fits(input.trits@),
            charge_fits(output.trits@),
        ensures
            res is Ok <==> conserved(*input, *output) && sentiment_matches(*input, input_direction)
                && sentiment_matches(*output, output_direction),
            !conserved(*input, *output) ==> (res matches Err(BottleError::Conservation { expected, actual })
                && expected == trit_total(input.trits@)
                && actual == trit_total(output.trits@)),
            conserved(*input, *output) && res is Err ==> (res matches Err(e) && e is Validation),
            res is Ok <==> trit_total(input.trits@) == trit_total(output.trits@)
                && input.trits@.len() > 2 && input.trits@[2] == input_direction
                && output.trits@.len() > 2 && output.trits@[2] == output_direction,
    {
        audit_strict(input, output)?;
        if !(Self::sentiment_trit_is(input, input_direction)
            && Self::sentiment_trit_is(output, output_direction)) {
            return Err(BottleError::Validation {
                reason: "envelope sentiment trit does not match the payload's net sentiment".to_owned(),
            });
        }
        Ok(())
    }

    /// The bottle's sentiment trit (`trits[2]`) is present and equals
    /// `direction`.
    fn sentiment_trit_is(bottle: &Bottle, direction: Trit) -> (matches: bool)
        ensures
            matches == sentiment_matches(*bottle, direction),
            matches <==> bottle.trits@.len() > 2 && bottle.trits@[2] == direction,
    {
        bottle.trits.len() > 2 && bottle.trits[2] == direction
    }
}

} // verus!
