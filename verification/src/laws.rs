//! What holds of every contest, whatever the arithmetic and the participants.
//!
//! The laws are stated over the relations that the contracts of the engine
//! use, so each of them speaks of what a call of the engine may do.

use vstd::prelude::*;
use crate::formula::{are_loss_deltas, are_tie_deltas, are_win_deltas, is_tie_score};
use crate::participant::{received, reports, Elo};
use crate::ranking::{adjusted, loss_settles, tie_settles, win_settles};
use crate::scalar::{
    is_count, is_difference, is_opposite, is_power, is_product, is_quotient, is_sum,
    negation_undoes_itself, single_valued, Scalar,
};

verus! {

/// Zero-sum, on the adjustments. In a win and in a tie the second adjustment
/// is the opposite of the first; in a loss, where the loser is named first,
/// the first is the opposite of the second. Neither is ever worked out on its
/// own.
pub proof fn lemma_deltas_are_opposite<S: Scalar>(k: nat, first: S, second: S, deltas: (S, S))
    ensures
        are_win_deltas(k, first, second, deltas) ==> is_opposite(deltas.0, deltas.1),
        are_tie_deltas(k, first, second, deltas) ==> is_opposite(deltas.0, deltas.1),
        are_loss_deltas(k, first, second, deltas) ==> is_opposite(deltas.1, deltas.0),
{
}

/// Zero-sum, both ways round. Where negating twice gives the number back,
/// each of the two adjustments of a win, of a tie and of a loss is the
/// opposite of the other.
pub proof fn lemma_deltas_are_mutual_opposites<S: Scalar>(
    k: nat,
    first: S,
    second: S,
    deltas: (S, S),
)
    requires
        negation_undoes_itself::<S>(),
        ({
            ||| are_win_deltas(k, first, second, deltas)
            ||| are_tie_deltas(k, first, second, deltas)
            ||| are_loss_deltas(k, first, second, deltas)
        }),
    ensures
        is_opposite(deltas.0, deltas.1),
        is_opposite(deltas.1, deltas.0),
{
    lemma_deltas_are_opposite(k, first, second, deltas);
}

/// Zero-sum, on the participants. After a win or a tie, the two participants
/// have received two adjustments of which the second is the opposite of the
/// first; after a loss, two of which the first is the opposite of the second.
pub proof fn lemma_zero_sum<T: Elo>(k: nat, first: &T, second: &T, first_after: &T, second_after: &T)
    ensures
        win_settles(k, first, second, first_after, second_after) ==> exists|
            deltas: (T::Rating, T::Rating),
        |
            ({
                &&& received(first, deltas.0, first_after)
                &&& received(second, deltas.1, second_after)
                &&& is_opposite(deltas.0, deltas.1)
            }),
        tie_settles(k, first, second, first_after, second_after) ==> exists|
            deltas: (T::Rating, T::Rating),
        |
            ({
                &&& received(first, deltas.0, first_after)
                &&& received(second, deltas.1, second_after)
                &&& is_opposite(deltas.0, deltas.1)
            }),
        loss_settles(k, first, second, first_after, second_after) ==> exists|
            deltas: (T::Rating, T::Rating),
        |
            ({
                &&& received(first, deltas.0, first_after)
                &&& received(second, deltas.1, second_after)
                &&& is_opposite(deltas.1, deltas.0)
            }),
{
    if win_settles(k, first, second, first_after, second_after) {
        let (ratings, deltas) = choose|
            ratings: (T::Rating, T::Rating),
            deltas: (T::Rating, T::Rating),
        |
            {
                &&& are_win_deltas(k, ratings.0, ratings.1, deltas)
                &&& adjusted(first, second, ratings, deltas, first_after, second_after)
            };
        assert(received(first, deltas.0, first_after) && is_opposite(deltas.0, deltas.1));
    }
    if tie_settles(k, first, second, first_after, second_after) {
        let (ratings, deltas) = choose|
            ratings: (T::Rating, T::Rating),
            deltas: (T::Rating, T::Rating),
        |
            {
                &&& are_tie_deltas(k, ratings.0, ratings.1, deltas)
                &&& adjusted(first, second, ratings, deltas, first_after, second_after)
            };
        assert(received(first, deltas.0, first_after) && is_opposite(deltas.0, deltas.1));
    }
    if loss_settles(k, first, second, first_after, second_after) {
        let (ratings, deltas) = choose|
            ratings: (T::Rating, T::Rating),
            deltas: (T::Rating, T::Rating),
        |
            {
                &&& are_loss_deltas(k, ratings.0, ratings.1, deltas)
                &&& adjusted(first, second, ratings, deltas, first_after, second_after)
            };
        assert(received(first, deltas.0, first_after) && is_opposite(deltas.1, deltas.0));
    }
}

/// A loss is a win told from the other side: `x` losing to `y` may turn the
/// two into `x_after` and `y_after` exactly when `y` beating `x` may.
pub proof fn lemma_loss_is_reversed_win<T: Elo>(k: nat, x: &T, y: &T, x_after: &T, y_after: &T)
    ensures
        loss_settles(k, x, y, x_after, y_after) <==> win_settles(k, y, x, y_after, x_after),
{
    if loss_settles(k, x, y, x_after, y_after) {
        let (ratings, deltas) = choose|
            ratings: (T::Rating, T::Rating),
            deltas: (T::Rating, T::Rating),
        |
            {
                &&& are_loss_deltas(k, ratings.0, ratings.1, deltas)
                &&& adjusted(x, y, ratings, deltas, x_after, y_after)
            };
        let turned = (deltas.1, deltas.0);
        assert(are_win_deltas(k, ratings.1, ratings.0, turned));
        assert(adjusted(y, x, (ratings.1, ratings.0), turned, y_after, x_after));
    }
    if win_settles(k, y, x, y_after, x_after) {
        let (ratings, deltas) = choose|
            ratings: (T::Rating, T::Rating),
            deltas: (T::Rating, T::Rating),
        |
            {
                &&& are_win_deltas(k, ratings.0, ratings.1, deltas)
                &&& adjusted(y, x, ratings, deltas, y_after, x_after)
            };
        let turned = (deltas.1, deltas.0);
        assert(are_loss_deltas(k, ratings.1, ratings.0, turned));
        assert(adjusted(x, y, (ratings.1, ratings.0), turned, x_after, y_after));
    }
}

/// The arithmetic is exact on the steps that a tie between two participants
/// rated `rating` goes through, with `k` points at stake: each step gives what
/// it gives among the real numbers.
pub open spec fn exact_at_balance<S: Scalar>(k: nat, rating: S) -> bool {
    // rating - rating = 0
    &&& forall|lead: S|
        #![trigger is_difference(rating, rating, lead)]
        is_difference(rating, rating, lead) ==> is_count(0, lead)
    // 0 / 400 = 0
    &&& forall|nought: S, span: S, gap: S|
        #![trigger is_quotient(nought, span, gap)]
        is_count(0, nought) && is_count(400, span) && is_quotient(nought, span, gap)
            ==> is_count(0, gap)
    // 10 ^ 0 = 1
    &&& forall|ten: S, nought: S, odds: S|
        #![trigger is_power(ten, nought, odds)]
        is_count(10, ten) && is_count(0, nought) && is_power(ten, nought, odds)
            ==> is_count(1, odds)
    // 1 + 1 = 2
    &&& forall|one: S, total: S|
        #![trigger is_sum(one, one, total)]
        is_count(1, one) && is_sum(one, one, total) ==> is_count(2, total)
    // 1 / 2 - 1 / 2 = 0
    &&& forall|score: S, margin: S|
        #![trigger is_difference(score, score, margin)]
        is_tie_score(score) && is_difference(score, score, margin) ==> is_count(0, margin)
    // k * 0 = 0
    &&& forall|stake: S, nought: S, change: S|
        #![trigger is_product(stake, nought, change)]
        is_count(k, stake) && is_count(0, nought) && is_product(stake, nought, change)
            ==> is_count(0, change)
    // rating + 0 = rating
    &&& forall|nought: S, sum: S|
        #![trigger is_sum(rating, nought, sum)]
        is_count(0, nought) && is_sum(rating, nought, sum) ==> sum == rating
    // rating + -0 = rating
    &&& forall|nought: S, back: S, sum: S|
        #![trigger is_opposite(nought, back), is_sum(rating, back, sum)]
        is_count(0, nought) && is_opposite(nought, back) && is_sum(rating, back, sum)
            ==> sum == rating
}

/// Tie symmetry, on the adjustments. Where the arithmetic is deterministic and
/// exact at the balance, either adjustment of a tie between two participants
/// rated alike, added to that rating, gives the rating back.
pub proof fn lemma_tie_deltas_of_equals_are_nought<S: Scalar>(k: nat, rating: S, deltas: (S, S))
    requires
        single_valued::<S>(),
        exact_at_balance::<S>(k, rating),
        are_tie_deltas(k, rating, rating, deltas),
    ensures
        forall|sum: S| #[trigger] is_sum(rating, deltas.0, sum) ==> sum == rating,
        forall|sum: S| #[trigger] is_sum(rating, deltas.1, sum) ==> sum == rating,
{
}

/// Tie symmetry, on the participants. Where the arithmetic is deterministic
/// and exact at the balance, a tie between two participants who both report
/// `rating`, and nothing else, leaves both reporting `rating`.
pub proof fn lemma_tie_of_equals_changes_nothing<T: Elo>(
    k: nat,
    rating: T::Rating,
    first_before: &T,
    second_before: &T,
    first_after: &T,
    second_after: &T,
)
    requires
        single_valued::<T::Rating>(),
        exact_at_balance::<T::Rating>(k, rating),
        forall|read: T::Rating| #[trigger] reports(first_before, read) ==> read == rating,
        forall|read: T::Rating| #[trigger] reports(second_before, read) ==> read == rating,
        tie_settles(k, first_before, second_before, first_after, second_after),
    ensures
        forall|read: T::Rating| #[trigger] reports(first_after, read) ==> read == rating,
        forall|read: T::Rating| #[trigger] reports(second_after, read) ==> read == rating,
{
    let (ratings, deltas) = choose|
        ratings: (T::Rating, T::Rating),
        deltas: (T::Rating, T::Rating),
    |
        {
            &&& are_tie_deltas(k, ratings.0, ratings.1, deltas)
            &&& adjusted(first_before, second_before, ratings, deltas, first_after, second_after)
        };
    lemma_tie_deltas_of_equals_are_nought(k, rating, deltas);
}

/// Determinism. Where the arithmetic is deterministic, the K-factor and the
/// two ratings determine the adjustments of a win, of a tie and of a loss:
/// the engine brings in nothing else.
pub proof fn lemma_deltas_are_determined<S: Scalar>(
    k: nat,
    first: S,
    second: S,
    deltas: (S, S),
    again: (S, S),
)
    requires
        single_valued::<S>(),
        ({
            ||| are_win_deltas(k, first, second, deltas) && are_win_deltas(k, first, second, again)
            ||| are_tie_deltas(k, first, second, deltas) && are_tie_deltas(k, first, second, again)
            ||| are_loss_deltas(k, first, second, deltas) && are_loss_deltas(k, first, second, again)
        }),
    ensures
        deltas == again,
{
}

} // verus!
