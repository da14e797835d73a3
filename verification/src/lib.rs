//! Karlsruhe waste-collection calendar core.
//!
//! The city publishes its waste-collection schedule for one street address
//! either as an HTML table or as an iCalendar export.  This crate extracts
//! the per-category collection dates from such a document and synthesizes a
//! normalized iCalendar document with one recurring all-day event per waste
//! category, filtered by a category exclusion set.

use vstd::prelude::*;

pub mod cli;
pub mod date;
pub mod event;
pub mod garbage_client;
pub mod handler;
pub mod laws;
pub mod route;
pub mod text;
pub mod waste;

verus! {

} // verus!
