//! The Elo formulas, as relations over the arithmetic of the ratings.

use vstd::prelude::*;
use crate::participant::{reports, Elo};
use crate::scalar::{
    is_count, is_difference, is_opposite, is_power, is_product, is_quotient, is_sum, Scalar,
};

verus! {

/// `score` is the score of the side that wins: one.
pub open spec fn is_win_score<S: Scalar>(score: S) -> bool {
    is_count(1, score)
}

/// `score` is the score of either side in a tie: one half, taken as the
/// quotient of one and two.
pub open spec fn is_tie_score<S: Scalar>(score: S) -> bool {
    exists|one: S, two: S|
        {
            &&& is_count(1, one)
            &&& is_count(2, two)
            &&& is_quotient(one, two, score)
        }
}

/// `expected` is the score that the logistic model expects of a participant
/// rated `own` against one rated `other`:
///
/// `1 / (1 + 10 ^ ((other - own) / 400))`
///
/// worked out from the inside, one operation at a time. A lead of 400 points
/// stands for expected odds of ten to one.
pub open spec fn is_expected_score<S: Scalar>(own: S, other: S, expected: S) -> bool {
    exists|one: S, ten: S, span: S, lead: S, gap: S, odds: S, total: S|
        {
            &&& is_count(1, one)
            &&& is_count(10, ten)
            &&& is_count(400, span)
            &&& is_difference(other, own, lead)
            &&& is_quotient(lead, span, gap)
            &&& is_power(ten, gap, odds)
            &&& is_sum(one, odds, total)
            &&& is_quotient(one, total, expected)
        }
}

/// `change` is the adjustment owed to a participant rated `own` who scored
/// `score` against one rated `other`, with `k` points at stake:
///
/// `k * (score - expected)`
pub open spec fn is_rating_change<S: Scalar>(k: nat, score: S, own: S, other: S, change: S) -> bool {
    exists|stake: S, expected: S, margin: S|
        {
            &&& is_count(k, stake)
            &&& is_expected_score(own, other, expected)
            &&& is_difference(score, expected, margin)
            &&& is_product(stake, margin, change)
        }
}

/// `deltas` are the two adjustments of a contest in which the first
/// participant, rated `own`, scored `score` against the second, rated
/// `other`: the first is the rating change, and the second is worked out from
/// the first alone, as its opposite.
pub open spec fn are_deltas<S: Scalar>(k: nat, score: S, own: S, other: S, deltas: (S, S)) -> bool {
    is_rating_change(k, score, own, other, deltas.0) && is_opposite(deltas.0, deltas.1)
}

/// `deltas` are the adjustments of the winner and of the loser, in this order.
pub open spec fn are_win_deltas<S: Scalar>(k: nat, winner: S, loser: S, deltas: (S, S)) -> bool {
    exists|score: S| is_win_score(score) && are_deltas(k, score, winner, loser, deltas)
}

/// `deltas` are the adjustments of the two sides of a tie, in the order in
/// which the sides are given.
pub open spec fn are_tie_deltas<S: Scalar>(k: nat, first: S, second: S, deltas: (S, S)) -> bool {
    exists|score: S| is_tie_score(score) && are_deltas(k, score, first, second, deltas)
}

/// `deltas` are the adjustments of the loser and of the winner, in this order:
/// those of the win, the other way round.
pub open spec fn are_loss_deltas<S: Scalar>(k: nat, loser: S, winner: S, deltas: (S, S)) -> bool {
    are_win_deltas(k, winner, loser, (deltas.1, deltas.0))
}

/// Computes the score expected of `player_one` against `player_two`, from
/// the ratings that the two report.
pub fn expected_rating<T: Elo>(player_one: &T, player_two: &T) -> (expected: T::Rating)
    ensures
        exists|own: T::Rating, other: T::Rating|
            ({
                &&& reports(player_one, own)
                &&& reports(player_two, other)
                &&& is_expected_score(own, other, expected)
            }),
{
    let other = player_two.get_rating();
    let own = player_one.get_rating();
    let one = T::Rating::from_count(1);
    let ten = T::Rating::from_count(10);
    let span = T::Rating::from_count(400);
    let lead = other.minus(own);
    let gap = lead.divided_by(span);
    let odds = ten.raised_to(gap);
    let total = one.plus(odds);
    let expected = one.divided_by(total);
    proof {
        assert({
            &&& is_count(1, one)
            &&& is_count(10, ten)
            &&& is_count(400, span)
            &&& is_difference(other, own, lead)
            &&& is_quotient(lead, span, gap)
            &&& is_power(ten, gap, odds)
            &&& is_sum(one, odds, total)
            &&& is_quotient(one, total, expected)
        });
        assert(is_expected_score(own, other, expected));
    }
    expected
}

} // verus!
