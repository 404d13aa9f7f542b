//! A work/break interval timer: the typed phase cycle PreWork, Working, PostWork, Break,
//! Complete; the elapsed-time rule that ends a timed phase; the step that a tick loop takes on
//! each timer boundary; and the countdown text shown while a phase runs.
use vstd::prelude::*;

pub mod countdown;
pub mod runner;
pub mod state;
pub mod time;

verus! {

} // verus!
