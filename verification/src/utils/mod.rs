//! Helpers for the dates of a race card.

pub mod transformers;
