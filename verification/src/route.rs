//! The routed calendar endpoints' query surfaces.

pub mod calendar;
