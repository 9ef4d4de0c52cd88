//! The rating engine.

use vstd::prelude::*;
use crate::formula::{
    are_deltas, are_loss_deltas, are_tie_deltas, are_win_deltas, expected_rating,
    is_expected_score, is_tie_score, is_win_score,
};
use crate::laws::lemma_loss_is_reversed_win;
use crate::participant::{received, reports, Elo};
use crate::scalar::{is_count, is_difference, is_product, is_quotient, Scalar};

verus! {

/// The two participants report `ratings` beforehand, and afterwards the first
/// has received `deltas.0` and the second `deltas.1`.
pub open spec fn adjusted<T: Elo>(
    first_before: &T,
    second_before: &T,
    ratings: (T::Rating, T::Rating),
    deltas: (T::Rating, T::Rating),
    first_after: &T,
    second_after: &T,
) -> bool {
    &&& reports(first_before, ratings.0)
    &&& reports(second_before, ratings.1)
    &&& received(first_before, deltas.0, first_after)
    &&& received(second_before, deltas.1, second_after)
}

/// A win, with `k` points at stake, may turn the winner and the loser as
/// given: both were adjusted by the deltas of a win at the ratings that they
/// reported.
pub open spec fn win_settles<T: Elo>(
    k: nat,
    winner_before: &T,
    loser_before: &T,
    winner_after: &T,
    loser_after: &T,
) -> bool {
    exists|ratings: (T::Rating, T::Rating), deltas: (T::Rating, T::Rating)|
        {
            &&& are_win_deltas(k, ratings.0, ratings.1, deltas)
            &&& adjusted(winner_before, loser_before, ratings, deltas, winner_after, loser_after)
        }
}

/// A tie, with `k` points at stake, may turn the two participants as given.
pub open spec fn tie_settles<T: Elo>(
    k: nat,
    first_before: &T,
    second_before: &T,
    first_after: &T,
    second_after: &T,
) -> bool {
    exists|ratings: (T::Rating, T::Rating), deltas: (T::Rating, T::Rating)|
        {
            &&& are_tie_deltas(k, ratings.0, ratings.1, deltas)
            &&& adjusted(first_before, second_before, ratings, deltas, first_after, second_after)
        }
}

/// A loss, with `k` points at stake, may turn the loser and the winner as
/// given.
pub open spec fn loss_settles<T: Elo>(
    k: nat,
    loser_before: &T,
    winner_before: &T,
    loser_after: &T,
    winner_after: &T,
) -> bool {
    exists|ratings: (T::Rating, T::Rating), deltas: (T::Rating, T::Rating)|
        {
            &&& are_loss_deltas(k, ratings.0, ratings.1, deltas)
            &&& adjusted(loser_before, winner_before, ratings, deltas, loser_after, winner_after)
        }
}

/// An Elo rating engine. Its only state is the K-factor, the number of rating
/// points at stake in one contest.
pub struct EloRanking {
    k_factor: usize,
}

impl View for EloRanking {
    type V = nat;

    /// The K-factor.
    closed spec fn view(&self) -> nat {
        self.k_factor as nat
    }
}

impl EloRanking {
    /// Creates an engine with `k` points at stake per contest. Any value is
    /// taken as it is, zero included.
    pub fn new(k: usize) -> (ranking: EloRanking)
        ensures
            ranking@ == k,
    {
        EloRanking { k_factor: k }
    }

    /// Replaces the K-factor. Any value is taken as it is.
    pub fn set_k_factor(&mut self, k: usize)
        ensures
            final(self)@ == k,
    {
        self.k_factor = k;
    }

    /// Returns the K-factor.
    pub fn get_k_factor(&self) -> (k: usize)
        ensures
            k == self@,
    {
        self.k_factor
    }

    /// Settles a contest in which `player_one` scored `score` against
    /// `player_two`: works out one adjustment from the ratings as they stand,
    /// hands it to `player_one`, and hands its opposite to `player_two`.
    fn calculate_rating<T: Elo>(&self, player_one: &mut T, player_two: &mut T, score: T::Rating)
        ensures
            exists|ratings: (T::Rating, T::Rating), deltas: (T::Rating, T::Rating)|
                ({
                    &&& are_deltas(self@, score, ratings.0, ratings.1, deltas)
                    &&& adjusted(
                        old(player_one),
                        old(player_two),
                        ratings,
                        deltas,
                        final(player_one),
                        final(player_two),
                    )
                }),
    {
        let stake = T::Rating::from_count(self.k_factor);
        let expected = expected_rating::<T>(player_one, player_two);
        let margin = score.minus(expected);
        let change = stake.times(margin);
        let ghost (own, other) = choose|own: T::Rating, other: T::Rating|
            {
                &&& reports(&*player_one, own)
                &&& reports(&*player_two, other)
                &&& is_expected_score(own, other, expected)
            };
        proof {
            assert({
                &&& is_count(self@, stake)
                &&& is_expected_score(own, other, expected)
                &&& is_difference(score, expected, margin)
                &&& is_product(stake, margin, change)
            });
        }
        player_one.change_rating(change);
        let back = change.negated();
        player_two.change_rating(back);
        proof {
            assert(are_deltas(self@, score, own, other, (change, back)));
            assert(adjusted(
                old(player_one),
                old(player_two),
                (own, other),
                (change, back),
                &*player_one,
                &*player_two,
            ));
        }
    }

    /// Records that `winner` beat `loser`.
    pub fn win<T: Elo>(&self, winner: &mut T, loser: &mut T)
        ensures
            win_settles(self@, old(winner), old(loser), final(winner), final(loser)),
    {
        let score = T::Rating::from_count(1);
        self.calculate_rating(winner, loser, score);
        proof {
            assert(is_win_score(score));
        }
    }

    /// Records that `player_one` and `player_two` tied.
    pub fn tie<T: Elo>(&self, player_one: &mut T, player_two: &mut T)
        ensures
            tie_settles(
                self@,
                old(player_one),
                old(player_two),
                final(player_one),
                final(player_two),
            ),
    {
        let one = T::Rating::from_count(1);
        let two = T::Rating::from_count(2);
        let score = one.divided_by(two);
        self.calculate_rating(player_one, player_two, score);
        proof {
            assert(is_count(1, one) && is_count(2, two) && is_quotient(one, two, score));
            assert(is_tie_score(score));
        }
    }

    /// Records that `loser` lost to `winner`: the same as a win of `winner`
    /// over `loser`.
    pub fn loss<T: Elo>(&self, loser: &mut T, winner: &mut T)
        ensures
            loss_settles(self@, old(loser), old(winner), final(loser), final(winner)),
    {
        self.win::<T>(winner, loser);
        proof {
            lemma_loss_is_reversed_win::<T>(self@, old(loser), old(winner), &*loser, &*winner);
        }
    }
}

} // verus!
