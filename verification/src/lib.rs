//! Bookkeeping for the per-timestep evolution of stellar masses inside an
//! accretion disk: shape and physicality checks on a population snapshot,
//! the choice of the capture radius, the mass ceiling of immortal stars and
//! the positivity of every mass that leaves a kernel.
//!
//! Every quantity is an IEEE-754 binary64 value carried by its bit pattern
//! in a `u64`; the module `binary64` gives those patterns their meaning.

pub mod binary64;
pub mod constants;
pub mod error;
pub mod physical;
pub mod wind;
pub mod accretion;
