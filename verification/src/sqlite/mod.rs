//! Helpers for the statements that store a race card.

pub mod racecards;
