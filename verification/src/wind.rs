//! The wind mass-loss kernel: what it accepts and what it lets out.
//!
//! A star loses mass at the rate `-(L / v_esc^2) * (1 + tanh(x))`, with
//! `x = (L - L_edd) / (L_edd / 10)` and `L_edd = 4 pi G c M / kappa`. The
//! opacity `kappa`, the radius and the escape speed `v_esc` are divisors, so
//! each is held to strict positivity before a formula reads it, and every
//! mass that results is held to it again.

use vstd::prelude::*;
use crate::error::KernelError;
use crate::physical::{all_positive, first_not_positive, find_not_positive};

verus! {

/// The four arrays of one call describe the same stars.
pub open spec fn same_length(
    masses: Seq<u64>,
    log_radius: Seq<u64>,
    log_lum: Seq<u64>,
    opacity: Seq<u64>,
) -> bool {
    &&& log_radius.len() == masses.len()
    &&& log_lum.len() == masses.len()
    &&& opacity.len() == masses.len()
}

/// What `check_inputs` answers for a snapshot.
pub open spec fn inputs_verdict(
    masses: Seq<u64>,
    log_radius: Seq<u64>,
    log_lum: Seq<u64>,
    opacity: Seq<u64>,
    r: Result<usize, KernelError>,
) -> bool {
    if !same_length(masses, log_radius, log_lum, opacity) {
        r == Err::<usize, KernelError>(KernelError::InvalidInput)
    } else if all_positive(opacity) {
        r == Ok::<usize, KernelError>(masses.len() as usize)
    } else {
        r matches Err(KernelError::NonPhysicalInput { index }) && first_not_positive(
            opacity,
            index as int,
        )
    }
}

/// Accepts a snapshot for the wind kernel and returns the number of stars.
///
/// Arrays of different lengths are an invalid input. Otherwise the first
/// star whose opacity is not strictly positive is a non-physical input. An
/// empty snapshot is accepted.
pub fn check_inputs(
    masses: &Vec<u64>,
    log_radius: &Vec<u64>,
    log_lum: &Vec<u64>,
    opacity: &Vec<u64>,
) -> (r: Result<usize, KernelError>)
    ensures
        inputs_verdict(masses@, log_radius@, log_lum@, opacity@, r),
{
    let n: usize = masses.len();
    if log_radius.len() != n || log_lum.len() != n || opacity.len() != n {
        return Err(KernelError::InvalidInput);
    }
    match find_not_positive(opacity) {
        None => Ok(n),
        Some(index) => Err(KernelError::NonPhysicalInput { index }),
    }
}

/// What `settle` answers for the masses that entered the kernel and the
/// masses that the losses leave.
pub open spec fn settle_verdict(
    masses: Seq<u64>,
    candidate: Seq<u64>,
    r: Result<Vec<u64>, KernelError>,
) -> bool {
    if candidate.len() != masses.len() {
        r == Err::<Vec<u64>, KernelError>(KernelError::InvalidInput)
    } else if all_positive(candidate) {
        r is Ok && r->Ok_0@ == candidate
    } else {
        r matches Err(KernelError::PhysicalInvariantViolation { index })
            && first_not_positive(candidate, index as int)
    }
}

/// Lets the new masses out of the wind kernel.
///
/// `candidate` holds, star by star, the old mass plus the (negative) mass
/// lost in the timestep. It comes back unchanged if it has one entry per
/// star and every entry is strictly positive. A star whose mass reached
/// zero, crossed it or is a NaN is a violated invariant, reported for the
/// first such star.
pub fn settle(masses: &Vec<u64>, candidate: Vec<u64>) -> (r: Result<Vec<u64>, KernelError>)
    ensures
        settle_verdict(masses@, candidate@, r),
        r matches Ok(new_masses) ==> new_masses@.len() == masses@.len() && all_positive(
            new_masses@,
        ),
{
    if candidate.len() != masses.len() {
        return Err(KernelError::InvalidInput);
    }
    match find_not_positive(&candidate) {
        None => Ok(candidate),
        Some(index) => Err(KernelError::PhysicalInvariantViolation { index }),
    }
}

/// The kernel keeps its population: where a snapshot was accepted and its
/// new masses were let out, there are as many new masses as there are stars
/// in each of the four arrays, and for no stars there are none.
pub proof fn lemma_population_is_kept(
    masses: Seq<u64>,
    log_radius: Seq<u64>,
    log_lum: Seq<u64>,
    opacity: Seq<u64>,
    candidate: Seq<u64>,
    checked: Result<usize, KernelError>,
    settled: Result<Vec<u64>, KernelError>,
)
    requires
        inputs_verdict(masses, log_radius, log_lum, opacity, checked),
        settle_verdict(masses, candidate, settled),
        checked is Ok,
        settled is Ok,
    ensures
        settled->Ok_0@.len() == masses.len(),
        settled->Ok_0@.len() == log_radius.len(),
        settled->Ok_0@.len() == log_lum.len(),
        settled->Ok_0@.len() == opacity.len(),
        masses.len() == 0 ==> settled->Ok_0@ =~= Seq::<u64>::empty(),
{
}

/// An empty snapshot is always accepted, and settling no masses always
/// succeeds.
pub proof fn lemma_empty_population_is_accepted(
    checked: Result<usize, KernelError>,
    settled: Result<Vec<u64>, KernelError>,
)
    requires
        inputs_verdict(
            Seq::<u64>::empty(),
            Seq::<u64>::empty(),
            Seq::<u64>::empty(),
            Seq::<u64>::empty(),
            checked,
        ),
        settle_verdict(Seq::<u64>::empty(), Seq::<u64>::empty(), settled),
    ensures
        checked == Ok::<usize, KernelError>(0usize),
        settled is Ok,
        settled->Ok_0@.len() == 0,
{
}

} // verus!
