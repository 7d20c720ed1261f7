//! The contextual speed-and-pace model.

pub mod advice;
pub mod figures;
pub mod meta;
pub mod order;
pub mod rank;
pub mod score;
pub mod shape;
pub mod types;
pub mod workout;
