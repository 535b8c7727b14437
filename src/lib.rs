//! Non-blocking transfers on a shared serial bus: a request queue drained by one
//! worker, one transfer in flight at a time, completions signalled from interrupt
//! context.
use vstd::prelude::*;

pub mod config;
pub mod init;
pub mod laws;
pub mod session;

verus! {

} // verus!
