//! The capability a participant offers to the rating engine.

use vstd::prelude::*;
use crate::scalar::{is_sum, Scalar};

verus! {

/// Anything that carries a rating.
///
/// The engine reads a participant's rating and hands it an adjustment; how
/// the rating is stored is the participant's own business. Ratings are not
/// bounded, and the engine never rounds or clamps them.
pub trait Elo {
    /// The numbers the rating is expressed in.
    type Rating: Scalar;

    /// Reads the current rating and changes nothing.
    fn get_rating(&self) -> Self::Rating;

    /// Adds `rating` to the current rating. A negative adjustment lowers it.
    ///
    /// Whatever rating was read before the call and whatever rating is read
    /// after it, the second is a sum of the first and `rating`: in the words
    /// of this module, the participant has [`received`] `rating`.
    fn change_rating(&mut self, rating: Self::Rating)
        ensures
            forall|before: Self::Rating, after: Self::Rating|
                #![trigger
                    call_ensures(Self::get_rating, (&*old(self),), before),
                    call_ensures(Self::get_rating, (&*final(self),), after),
                ]
                call_ensures(Self::get_rating, (&*old(self),), before) && call_ensures(
                    Self::get_rating,
                    (&*final(self),),
                    after,
                ) ==> is_sum(before, rating, after),
    ;
}

/// `rating` is a rating that `participant` reports.
#[verifier::inline]
pub open spec fn reports<T: Elo + ?Sized>(participant: &T, rating: T::Rating) -> bool {
    call_ensures(T::get_rating, (participant,), rating)
}

/// `after` is `before` with `adjustment` added to its rating: whatever rating
/// `before` reports and whatever rating `after` reports, the second is a sum
/// of the first and the adjustment.
pub open spec fn received<T: Elo + ?Sized>(before: &T, adjustment: T::Rating, after: &T) -> bool {
    forall|old_rating: T::Rating, new_rating: T::Rating|
        #![trigger reports(before, old_rating), reports(after, new_rating)]
        reports(before, old_rating) && reports(after, new_rating) ==> is_sum(
            old_rating,
            adjustment,
            new_rating,
        )
}

} // verus!
