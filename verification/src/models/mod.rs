//! The records that the scorers read and the values that they produce.

pub mod racecard;
pub mod trip_handicapping;
