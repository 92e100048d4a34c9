//! Check-in reconciliation and badge rendering for an event desk.
//!
//! The crate holds the decisions of the desk: how a record is projected onto
//! the four fields of a badge, how a template is filled, which step follows
//! which while a badge is compiled and printed, and what a manual lookup does
//! with the snapshots it fetched. Reading sockets, calling the ticketing
//! service and running the compiler and the spooler are left to the caller,
//! who feeds what happened back in as events.

pub mod checkin_output;
pub mod error;
pub mod recheck;
pub mod run_loop;
pub mod stdout_checkin_output;
pub mod text;
pub mod tito_types;
pub mod typst_checkin_output;
