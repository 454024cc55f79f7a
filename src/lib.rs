//! The in-process request bus of a camera photo booth: typed requests from
//! an asynchronous frontend are served one at a time, in arrival order, by a
//! single worker that owns the camera, and a capture's completion, reported
//! by the driver's callback during polling, is correlated with the one
//! request waiting for it.
//!
//! The driver calls themselves are made outside this crate; the state
//! machines here decide which call comes next and what each result means.
use vstd::prelude::*;

pub mod bridge;
pub mod capture;
pub mod comm;
pub mod edsdk;
pub mod session;
pub mod transfer;
pub mod worker;

verus! {

} // verus!
