//! Placement coordination for stacked on-screen notifications: a ledger of the
//! visible notifications shared between processes, the stacking offsets derived
//! from it, the per-notification surface state machine, and the command line.
use vstd::prelude::*;

pub mod args;
pub mod cli;
pub mod config;
pub mod laws;
pub mod ledger;
pub mod placement;
pub mod surface;
pub mod text;

verus! {

} // verus!
