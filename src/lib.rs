//! Departure board engine: turns raw departure records into an ordered list of
//! canonical departures and drives the periodic refresh of the shared result.
pub mod time;
pub mod departure;
pub mod pipeline;
pub mod refresh;
