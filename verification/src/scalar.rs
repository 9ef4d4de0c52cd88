//! The arithmetic in which ratings are computed.
//!
//! The rating formula needs a handful of operations on numbers: a conversion
//! from whole numbers, the four basic operations, negation and
//! exponentiation. The engine is written once over this interface, so the
//! precision of the arithmetic is the choice of whoever supplies the numbers.
//!
//! Nothing is assumed of the operations. They may round or saturate, and a
//! contract of the engine never relies on an algebraic identity. What the
//! engine promises is stated over the relations below, each of the form "`r`
//! is a value that this operation may return for these operands".

use vstd::prelude::*;

verus! {

/// A number type that ratings, scores and adjustments are expressed in.
///
/// Every operation accepts every operand.
pub trait Scalar: Copy {
    /// Converts a whole number.
    fn from_count(n: usize) -> Self;

    /// `self + rhs`.
    fn plus(self, rhs: Self) -> Self;

    /// `self - rhs`.
    fn minus(self, rhs: Self) -> Self;

    /// `self * rhs`.
    fn times(self, rhs: Self) -> Self;

    /// `self / rhs`.
    fn divided_by(self, rhs: Self) -> Self;

    /// `-self`.
    fn negated(self) -> Self;

    /// `self` raised to `exponent`.
    fn raised_to(self, exponent: Self) -> Self;
}

/// `r` may come out of converting the whole number `n`.
pub open spec fn is_count<S: Scalar>(n: nat, r: S) -> bool {
    n <= usize::MAX && call_ensures(S::from_count, (n as usize,), r)
}

/// `r` may come out of `a + b`.
pub open spec fn is_sum<S: Scalar>(a: S, b: S, r: S) -> bool {
    call_ensures(S::plus, (a, b), r)
}

/// `r` may come out of `a - b`.
pub open spec fn is_difference<S: Scalar>(a: S, b: S, r: S) -> bool {
    call_ensures(S::minus, (a, b), r)
}

/// `r` may come out of `a * b`.
pub open spec fn is_product<S: Scalar>(a: S, b: S, r: S) -> bool {
    call_ensures(S::times, (a, b), r)
}

/// `r` may come out of `a / b`.
pub open spec fn is_quotient<S: Scalar>(a: S, b: S, r: S) -> bool {
    call_ensures(S::divided_by, (a, b), r)
}

/// `r` may come out of `-a`.
pub open spec fn is_opposite<S: Scalar>(a: S, r: S) -> bool {
    call_ensures(S::negated, (a,), r)
}

/// `r` may come out of raising `a` to `exponent`.
pub open spec fn is_power<S: Scalar>(a: S, exponent: S, r: S) -> bool {
    call_ensures(S::raised_to, (a, exponent), r)
}

/// Negating twice gives the number back: whenever `b` may come out of `-a`,
/// `a` may come out of `-b`.
pub open spec fn negation_undoes_itself<S: Scalar>() -> bool {
    forall|a: S, b: S| #[trigger] is_opposite(a, b) ==> is_opposite(b, a)
}

/// The arithmetic of `S` is deterministic: every operation has one result for
/// given operands.
pub open spec fn single_valued<S: Scalar>() -> bool {
    &&& forall|n: nat, r1: S, r2: S|
        #![trigger is_count(n, r1), is_count(n, r2)]
        is_count(n, r1) && is_count(n, r2) ==> r1 == r2
    &&& forall|a: S, b: S, r1: S, r2: S|
        #![trigger is_sum(a, b, r1), is_sum(a, b, r2)]
        is_sum(a, b, r1) && is_sum(a, b, r2) ==> r1 == r2
    &&& forall|a: S, b: S, r1: S, r2: S|
        #![trigger is_difference(a, b, r1), is_difference(a, b, r2)]
        is_difference(a, b, r1) && is_difference(a, b, r2) ==> r1 == r2
    &&& forall|a: S, b: S, r1: S, r2: S|
        #![trigger is_product(a, b, r1), is_product(a, b, r2)]
        is_product(a, b, r1) && is_product(a, b, r2) ==> r1 == r2
    &&& forall|a: S, b: S, r1: S, r2: S|
        #![trigger is_quotient(a, b, r1), is_quotient(a, b, r2)]
        is_quotient(a, b, r1) && is_quotient(a, b, r2) ==> r1 == r2
    &&& forall|a: S, r1: S, r2: S|
        #![trigger is_opposite(a, r1), is_opposite(a, r2)]
        is_opposite(a, r1) && is_opposite(a, r2) ==> r1 == r2
    &&& forall|a: S, b: S, r1: S, r2: S|
        #![trigger is_power(a, b, r1), is_power(a, b, r2)]
        is_power(a, b, r1) && is_power(a, b, r2) ==> r1 == r2
}

} // verus!
