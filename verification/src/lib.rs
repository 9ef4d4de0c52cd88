//! Elo rating updates for pairs of participants.
//!
//! An [`EloRanking`] holds one setting, the K-factor, and settles contests
//! between two participants: a win, a tie or a loss. It reads both ratings,
//! works out one adjustment from the expected score, and hands the adjustment
//! to one participant and its opposite to the other.
//!
//! A participant is anything that implements [`Elo`]. The numbers that ratings
//! are expressed in are a parameter as well: any type that implements
//! [`Scalar`]. The engine assumes nothing of that arithmetic, so its contracts
//! are relations: they say which operations were applied to which operands,
//! and that each value handed on is one that the operation may return. For an
//! arithmetic whose operations state their results exactly, these relations
//! pin every rating down.
//!
//! - [`scalar`]: the arithmetic, and the relations that name its results.
//! - [`participant`]: the participant, and what it means to have received an
//!   adjustment.
//! - [`formula`]: the expected score, the rating change and the two deltas
//!   of each outcome.
//! - [`ranking`]: the engine.
//! - [`laws`]: what holds of every contest.

pub mod formula;
pub mod laws;
pub mod participant;
pub mod ranking;
pub mod scalar;

pub use formula::expected_rating;
pub use participant::Elo;
pub use ranking::EloRanking;
pub use scalar::Scalar;
