//! Device-side core of a pen-plotter driver for roulette curves.
//!
//! The crate holds the integer half of the geometry-to-device pipeline: the
//! travel rectangle of the cutter in device units, clipping of pen motion to
//! that rectangle, the ASCII command set spoken over the serial link, the
//! sampling plan of a rolling-circle curve, and the policy applied to the
//! outcome of each serial write.

pub mod decimal;
pub mod error;
pub mod hpgl;
pub mod roulette;
pub mod transport;
pub mod uscutter;
