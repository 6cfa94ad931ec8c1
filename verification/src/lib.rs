//! Display engine for an interactive issue tracker: pagination over a record
//! window, rendering of list and detail views with their clickable controls,
//! status transitions, and the session state machine that reacts to control
//! clicks until a terminal condition.

use vstd::prelude::*;

pub mod controls;
pub mod detailview;
pub mod errors;
pub mod listview;
pub mod motd;
pub mod notices;
pub mod numfmt;
pub mod parse;
pub mod payload;
pub mod query;
pub mod pagination;
pub mod records;
pub mod server;
pub mod session;
pub mod stats;
pub mod status;
pub mod text;

verus! {

} // verus!
