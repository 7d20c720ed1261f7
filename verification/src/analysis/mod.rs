//! The trip-trouble scorer.

pub mod bet_back;
pub mod trip_score;
pub mod trip_text;
