//! Bounded linear containers: a first-in-first-out queue and a
//! last-in-first-out stack, each with an optional capacity limit and a
//! choice between strict (rejecting) and forcing (evicting) insertion.

pub mod queue;
pub mod stack;
