//! Partial-update inputs and the mutations they stand for.

pub mod series;
