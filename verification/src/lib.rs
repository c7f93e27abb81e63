//! Verified estimation core for a 3-axis inertial sensor stream.
//!
//! The crate owns the numerical logic of the pipeline: a discrete linear
//! Kalman filter over a 3-dimensional acceleration state, a tilt compensator
//! that removes the rotation given by the current orientation angles, and the
//! fixed 48-byte frame written towards the downstream consumer. Reading the
//! serial link, decoding records and sending datagrams are left to the
//! unverified shell around the library.

pub mod filter;
pub mod frame;
pub mod mat3;
pub mod pipeline;
pub mod rat;
pub mod tilt;

use vstd::prelude::*;

verus! {

} // verus!
