//! Scoring of horse-race entrants from structured past-performance data.
//!
//! Every fractional quantity is an integer that counts millionths of its
//! unit, so all arithmetic is exact integer arithmetic; a division rounds
//! toward negative infinity.

pub mod analysis;
pub mod calendar;
pub mod fixed_point;
pub mod models;
pub mod number;
pub mod pace_model;
pub mod pattern;
pub mod racecard_file;
pub mod seq_lemmas;
pub mod sqlite;
pub mod text;
pub mod utils;
