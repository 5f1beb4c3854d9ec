//! The accretion kernel: what it accepts, which radius captures gas, and how
//! the mass ceiling of immortal stars is applied.
//!
//! A star gains mass at the rate `(pi / f) * rho * c_s * R^2`, where `R` is
//! the smaller of its Bondi radius `2 G M / c_s^2` and its Hill radius. The
//! sound speed `c_s` is a divisor and is held to strict positivity. The mass
//! that the gain would give is cut to the ceiling; whether a star was cut is
//! decided on the mass before the cut, never by comparing the result with
//! the ceiling afterwards.

use vstd::prelude::*;
use crate::binary64::{at_most, le, less, lesser, lt, minimum, nan, positive, is_positive, same};
use crate::error::KernelError;
use crate::physical::{all_positive, first_not_positive, find_not_positive};

verus! {

/// The four arrays of one call describe the same stars.
pub open spec fn same_length(
    masses: Seq<u64>,
    orbits: Seq<u64>,
    sound_speed: Seq<u64>,
    density: Seq<u64>,
) -> bool {
    &&& orbits.len() == masses.len()
    &&& sound_speed.len() == masses.len()
    &&& density.len() == masses.len()
}

/// What `check_inputs` answers for a snapshot.
pub open spec fn inputs_verdict(
    masses: Seq<u64>,
    orbits: Seq<u64>,
    sound_speed: Seq<u64>,
    density: Seq<u64>,
    r: Result<usize, KernelError>,
) -> bool {
    if !same_length(masses, orbits, sound_speed, density) {
        r == Err::<usize, KernelError>(KernelError::InvalidInput)
    } else if all_positive(sound_speed) {
        r == Ok::<usize, KernelError>(masses.len() as usize)
    } else {
        r matches Err(KernelError::NonPhysicalInput { index }) && first_not_positive(
            sound_speed,
            index as int,
        )
    }
}

/// Accepts a snapshot for the accretion kernel and returns the number of
/// stars.
///
/// Arrays of different lengths are an invalid input. Otherwise the first
/// star whose sound speed is not strictly positive is a non-physical input.
/// An empty snapshot is accepted.
pub fn check_inputs(
    masses: &Vec<u64>,
    orbits: &Vec<u64>,
    sound_speed: &Vec<u64>,
    density: &Vec<u64>,
) -> (r: Result<usize, KernelError>)
    ensures
        inputs_verdict(masses@, orbits@, sound_speed@, density@, r),
{
    let n: usize = masses.len();
    if orbits.len() != n || sound_speed.len() != n || density.len() != n {
        return Err(KernelError::InvalidInput);
    }
    match find_not_positive(sound_speed) {
        None => Ok(n),
        Some(index) => Err(KernelError::NonPhysicalInput { index }),
    }
}

/// The radius inside which a star captures gas: the smaller of its Bondi
/// and Hill radii. A radius that is a NaN is handed on, so that it cannot
/// hide behind the other one.
pub fn capture_radius(bondi: u64, hill: u64) -> (r: u64)
    ensures
        r == lesser(bondi, hill),
{
    minimum(bondi, hill)
}

/// The star would grow past the ceiling: its mass before the cut is
/// strictly above `cutoff`.
pub open spec fn clipped(uncapped: u64, cutoff: u64) -> bool {
    less(cutoff, uncapped)
}

/// The mass after the cut: the ceiling itself for a clipped star, the mass
/// before the cut, bit for bit, for any other.
pub open spec fn capped(uncapped: u64, cutoff: u64) -> u64 {
    if clipped(uncapped, cutoff) {
        cutoff
    } else {
        uncapped
    }
}

/// The star breaks an invariant of the kernel: its new mass is not strictly
/// positive, or its new mass is at the ceiling or above while the growth
/// that the ceiling allows it, `cutoff - old`, is negative. That difference
/// is negative exactly when the old mass is strictly above the ceiling.
pub open spec fn violates(old_mass: u64, uncapped: u64, cutoff: u64) -> bool {
    let new_mass = capped(uncapped, cutoff);
    ||| !positive(new_mass)
    ||| (at_most(cutoff, new_mass) && less(cutoff, old_mass))
}

/// No star of the population breaks an invariant.
pub open spec fn no_violation(masses: Seq<u64>, uncapped: Seq<u64>, cutoff: u64) -> bool {
    forall|i: int|
        0 <= i < masses.len() ==> !(#[trigger] violates(masses[i], uncapped[i], cutoff))
}

/// `index` is the first star that breaks an invariant.
pub open spec fn first_violation(
    masses: Seq<u64>,
    uncapped: Seq<u64>,
    cutoff: u64,
    index: int,
) -> bool {
    &&& 0 <= index < masses.len()
    &&& violates(masses[index], uncapped[index], cutoff)
    &&& forall|j: int|
        0 <= j < index ==> !(#[trigger] violates(masses[j], uncapped[j], cutoff))
}

/// Cuts one mass to the ceiling and tells whether it was cut.
pub fn cap_star(uncapped: u64, cutoff: u64) -> (r: (u64, bool))
    ensures
        r.0 == capped(uncapped, cutoff),
        r.1 == clipped(uncapped, cutoff),
{
    if lt(cutoff, uncapped) {
        (cutoff, true)
    } else {
        (uncapped, false)
    }
}

/// Tells whether a star breaks an invariant of the kernel.
pub fn star_violates(old_mass: u64, uncapped: u64, cutoff: u64) -> (r: bool)
    ensures
        r == violates(old_mass, uncapped, cutoff),
{
    let (new_mass, _) = cap_star(uncapped, cutoff);
    !is_positive(new_mass) || (le(cutoff, new_mass) && lt(cutoff, old_mass))
}

/// The masses that leave the accretion kernel, with the mask of the stars
/// that were cut to the ceiling. The gain that a masked star had to give
/// back is its gain minus `cutoff - old`; an unmasked star gives nothing
/// back.
pub struct Settled {
    pub new_masses: Vec<u64>,
    pub clipped: Vec<bool>,
}

impl Settled {
    /// The result is the one that `uncapped` and `cutoff` determine: one
    /// mass and one flag per star, each as `capped` and `clipped` say.
    pub open spec fn matches_population(self, uncapped: Seq<u64>, cutoff: u64) -> bool {
        &&& self.new_masses@.len() == uncapped.len()
        &&& self.clipped@.len() == uncapped.len()
        &&& forall|i: int|
            0 <= i < uncapped.len() ==> #[trigger] self.new_masses@[i] == capped(
                uncapped[i],
                cutoff,
            )
        &&& forall|i: int|
            0 <= i < uncapped.len() ==> #[trigger] self.clipped@[i] == clipped(
                uncapped[i],
                cutoff,
            )
    }
}

/// What `settle` answers for the masses that entered the kernel, the masses
/// that the gains would give, and the ceiling.
pub open spec fn settle_verdict(
    masses: Seq<u64>,
    uncapped: Seq<u64>,
    cutoff: u64,
    r: Result<Settled, KernelError>,
) -> bool {
    if uncapped.len() != masses.len() {
        r == Err::<Settled, KernelError>(KernelError::InvalidInput)
    } else if no_violation(masses, uncapped, cutoff) {
        r is Ok && r->Ok_0.matches_population(uncapped, cutoff)
    } else {
        r matches Err(KernelError::PhysicalInvariantViolation { index }) && first_violation(
            masses,
            uncapped,
            cutoff,
            index as int,
        )
    }
}

/// Lets the new masses out of the accretion kernel.
///
/// `uncapped` holds, star by star, the old mass plus the gain of the
/// timestep. Each is cut to `cutoff`; the mask tells which were. Arrays of
/// different lengths are an invalid input; the first star that breaks an
/// invariant (see `violates`) is reported as such, and nothing is returned.
pub fn settle(masses: &Vec<u64>, uncapped: &Vec<u64>, cutoff: u64) -> (r: Result<
    Settled,
    KernelError,
>)
    ensures
        settle_verdict(masses@, uncapped@, cutoff, r),
        r matches Ok(s) ==> s.new_masses@.len() == masses@.len() && all_positive(s.new_masses@),
        r matches Ok(s) ==> !nan(cutoff) ==> forall|i: int|
            0 <= i < s.new_masses@.len() ==> at_most(#[trigger] s.new_masses@[i], cutoff),
{
    let n: usize = masses.len();
    if uncapped.len() != n {
        return Err(KernelError::InvalidInput);
    }
    let mut new_masses: Vec<u64> = Vec::new();
    let mut mask: Vec<bool> = Vec::new();
    let mut i: usize = 0;
    while i < n
        invariant
            n == masses@.len(),
            n == uncapped@.len(),
            i <= n,
            new_masses@.len() == i,
            mask@.len() == i,
            forall|j: int|
                0 <= j < i ==> !(#[trigger] violates(masses@[j], uncapped@[j], cutoff)),
            forall|j: int|
                0 <= j < i ==> #[trigger] new_masses@[j] == capped(uncapped@[j], cutoff),
            forall|j: int| 0 <= j < i ==> #[trigger] mask@[j] == clipped(uncapped@[j], cutoff),
        decreases n - i,
    {
        if star_violates(masses[i], uncapped[i], cutoff) {
            proof {
                assert(violates(masses@[i as int], uncapped@[i as int], cutoff));
                assert(first_violation(masses@, uncapped@, cutoff, i as int));
            }
            return Err(KernelError::PhysicalInvariantViolation { index: i });
        }
        let (new_mass, was_clipped) = cap_star(uncapped[i], cutoff);
        new_masses.push(new_mass);
        mask.push(was_clipped);
        i += 1;
    }
    let settled = Settled { new_masses, clipped: mask };
    proof {
        assert forall|k: int| 0 <= k < settled.new_masses@.len() implies positive(
            #[trigger] settled.new_masses@[k],
        ) && (!nan(cutoff) ==> at_most(settled.new_masses@[k], cutoff)) by {
            assert(!violates(masses@[k], uncapped@[k], cutoff));
        }
    }
    Ok(settled)
}

/// A mass that was cut once is not cut again, and no mass that comes out of
/// the cut is above the ceiling.
pub proof fn lemma_capped_settles(uncapped: u64, cutoff: u64)
    ensures
        !clipped(capped(uncapped, cutoff), cutoff),
        capped(capped(uncapped, cutoff), cutoff) == capped(uncapped, cutoff),
{
}

/// A clipped star leaves with exactly the ceiling; any other star leaves
/// with exactly the mass it had before the cut. The two cases exclude each
/// other, and a star is clipped only if both masses are numbers.
pub proof fn lemma_cut_is_exact(uncapped: u64, cutoff: u64)
    ensures
        clipped(uncapped, cutoff) ==> capped(uncapped, cutoff) == cutoff,
        !clipped(uncapped, cutoff) ==> capped(uncapped, cutoff) == uncapped,
        clipped(uncapped, cutoff) ==> !nan(uncapped) && !nan(cutoff) && !same(uncapped, cutoff),
{
}

/// Star by star: one whose mass before the cut is above the ceiling leaves
/// with exactly the ceiling and is masked; any other leaves with exactly the
/// mass it had before the cut and is not masked, so it gives nothing back.
pub proof fn lemma_settled_star(s: Settled, uncapped: Seq<u64>, cutoff: u64, i: int)
    requires
        s.matches_population(uncapped, cutoff),
        0 <= i < uncapped.len(),
    ensures
        less(cutoff, uncapped[i]) ==> s.new_masses@[i] == cutoff && s.clipped@[i],
        !less(cutoff, uncapped[i]) ==> s.new_masses@[i] == uncapped[i] && !s.clipped@[i],
{
}

/// The kernel keeps its population: where a snapshot was accepted and its
/// new masses were let out, there are as many new masses, and as many
/// flags, as there are stars in each of the four arrays.
pub proof fn lemma_population_is_kept(
    masses: Seq<u64>,
    orbits: Seq<u64>,
    sound_speed: Seq<u64>,
    density: Seq<u64>,
    uncapped: Seq<u64>,
    cutoff: u64,
    checked: Result<usize, KernelError>,
    settled: Result<Settled, KernelError>,
)
    requires
        inputs_verdict(masses, orbits, sound_speed, density, checked),
        settle_verdict(masses, uncapped, cutoff, settled),
        checked is Ok,
        settled is Ok,
    ensures
        settled->Ok_0.new_masses@.len() == masses.len(),
        settled->Ok_0.clipped@.len() == masses.len(),
        masses.len() == orbits.len(),
        masses.len() == sound_speed.len(),
        masses.len() == density.len(),
{
}

/// An empty snapshot is always accepted, and settling no masses always
/// succeeds, whatever the ceiling.
pub proof fn lemma_empty_population_is_accepted(
    cutoff: u64,
    checked: Result<usize, KernelError>,
    settled: Result<Settled, KernelError>,
)
    requires
        inputs_verdict(
            Seq::<u64>::empty(),
            Seq::<u64>::empty(),
            Seq::<u64>::empty(),
            Seq::<u64>::empty(),
            checked,
        ),
        settle_verdict(Seq::<u64>::empty(), Seq::<u64>::empty(), cutoff, settled),
    ensures
        checked == Ok::<usize, KernelError>(0usize),
        settled is Ok,
        settled->Ok_0.new_masses@.len() == 0,
        settled->Ok_0.clipped@.len() == 0,
{
}

/// A star that starts strictly positive and at or below the ceiling, and
/// whose mass before the cut is not below its old mass, breaks no invariant.
pub proof fn lemma_growth_below_ceiling_is_safe(old_mass: u64, uncapped: u64, cutoff: u64)
    requires
        positive(old_mass),
        at_most(old_mass, cutoff),
        at_most(old_mass, uncapped),
    ensures
        !violates(old_mass, uncapped, cutoff),
{
}

} // verus!
