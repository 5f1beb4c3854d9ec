use stellar_mass::accretion::{cap_star, capture_radius, check_inputs, settle, star_violates};
use stellar_mass::constants::{C_SI, G_SI, M_SUN_KG, YR_S};
use stellar_mass::error::KernelError;

fn bits(values: &[f64]) -> Vec<u64> {
    values.iter().map(|v| v.to_bits()).collect()
}

fn floats(values: &[u64]) -> Vec<f64> {
    values.iter().map(|v| f64::from_bits(*v)).collect()
}

fn close(a: f64, b: f64, rel: f64) -> bool {
    (a - b).abs() <= rel * a.abs().max(b.abs())
}

struct Population {
    masses: Vec<f64>,
    orbits: Vec<f64>,
    sound_speed: Vec<f64>,
    density: Vec<f64>,
}

struct Outcome {
    new_masses: Vec<f64>,
    gains: Vec<f64>,
    clipped: Vec<bool>,
    total_gained: f64,
    total_immortal_lost: f64,
}

/// Mass gained by one star in one timestep, in solar masses.
fn gain_of(
    mass: f64,
    orbit_rg: f64,
    sound_speed: f64,
    density: f64,
    luminosity_factor: f64,
    smbh_mass: f64,
    timestep_yr: f64,
    r_g_in_meters: f64,
) -> f64 {
    let m_sun = f64::from_bits(M_SUN_KG);
    let bondi = 2.0 * f64::from_bits(G_SI) * (mass * m_sun) / (sound_speed * sound_speed);
    let hill = orbit_rg * (mass / (3.0 * (mass + smbh_mass))).cbrt() * r_g_in_meters;
    let radius = f64::from_bits(capture_radius(bondi.to_bits(), hill.to_bits()));
    let mdot_kg_s = (std::f64::consts::PI / luminosity_factor) * density * sound_speed
        * radius
        * radius;
    mdot_kg_s * f64::from_bits(YR_S) / m_sun * timestep_yr
}

/// One pass of the accretion kernel: the library decides, the formulas compute.
fn accretion_pass(
    p: &Population,
    luminosity_factor: f64,
    cutoff: f64,
    smbh_mass: f64,
    timestep_yr: f64,
    r_g_in_meters: f64,
) -> Result<Outcome, KernelError> {
    let mass_bits = bits(&p.masses);
    let n = check_inputs(&mass_bits, &bits(&p.orbits), &bits(&p.sound_speed), &bits(&p.density))?;
    let mut gains = Vec::new();
    let mut uncapped = Vec::new();
    for i in 0..n {
        let gain = gain_of(
            p.masses[i],
            p.orbits[i],
            p.sound_speed[i],
            p.density[i],
            luminosity_factor,
            smbh_mass,
            timestep_yr,
            r_g_in_meters,
        );
        gains.push(gain);
        uncapped.push(p.masses[i] + gain);
    }
    let settled = settle(&mass_bits, &bits(&uncapped), cutoff.to_bits())?;
    let total_gained = gains.iter().fold(0.0, |acc, g| acc + g);
    let mut total_immortal_lost = 0.0;
    for i in 0..n {
        if settled.clipped[i] {
            total_immortal_lost += gains[i] - (cutoff - p.masses[i]);
        }
    }
    Ok(Outcome {
        new_masses: floats(&settled.new_masses),
        gains,
        clipped: settled.clipped,
        total_gained,
        total_immortal_lost,
    })
}

fn r_g(smbh_mass: f64) -> f64 {
    let c = f64::from_bits(C_SI);
    f64::from_bits(G_SI) * smbh_mass * f64::from_bits(M_SUN_KG) / (c * c)
}

#[test]
fn accretion_check_inputs_accepts_an_empty_snapshot() {
    let empty: Vec<u64> = Vec::new();
    assert_eq!(check_inputs(&empty, &empty, &empty, &empty), Ok(0));
}

#[test]
fn accretion_check_inputs_rejects_each_mismatched_array() {
    let three = bits(&[1.0, 2.0, 3.0]);
    let four = bits(&[1.0, 2.0, 3.0, 4.0]);
    assert_eq!(check_inputs(&four, &three, &three, &three), Err(KernelError::InvalidInput));
    assert_eq!(check_inputs(&three, &four, &three, &three), Err(KernelError::InvalidInput));
    assert_eq!(check_inputs(&three, &three, &four, &three), Err(KernelError::InvalidInput));
    assert_eq!(check_inputs(&three, &three, &three, &four), Err(KernelError::InvalidInput));
    assert_eq!(check_inputs(&three, &three, &three, &three), Ok(3));
}

#[test]
fn accretion_check_inputs_rejects_the_first_sound_speed_that_is_not_positive() {
    let m = bits(&[1.0, 2.0, 3.0]);
    assert_eq!(
        check_inputs(&m, &m, &bits(&[1.0e4, 0.0, -1.0]), &m),
        Err(KernelError::NonPhysicalInput { index: 1 })
    );
    assert_eq!(
        check_inputs(&m, &m, &bits(&[1.0e4, 1.0e4, f64::NAN]), &m),
        Err(KernelError::NonPhysicalInput { index: 2 })
    );
    assert_eq!(
        check_inputs(&m, &m, &bits(&[-1.0e4, 1.0e4, 1.0e4]), &m),
        Err(KernelError::NonPhysicalInput { index: 0 })
    );
}

#[test]
fn capture_radius_is_the_smaller_radius() {
    let bondi = 2654248839113.9995f64;
    let hill = 220578481385.61548f64;
    assert_eq!(capture_radius(bondi.to_bits(), hill.to_bits()), hill.to_bits());
    assert_eq!(capture_radius(hill.to_bits(), bondi.to_bits()), hill.to_bits());
    assert_eq!(capture_radius(bondi.to_bits(), bondi.to_bits()), bondi.to_bits());
    assert_eq!(capture_radius(1.0f64.to_bits(), f64::INFINITY.to_bits()), 1.0f64.to_bits());
}

#[test]
fn capture_radius_hands_a_nan_on() {
    let nan = f64::NAN.to_bits();
    assert_eq!(capture_radius(nan, 1.0f64.to_bits()), nan);
    assert_eq!(capture_radius(1.0f64.to_bits(), nan), nan);
}

#[test]
fn cap_star_cuts_only_what_is_above_the_ceiling() {
    let cutoff = 2.0f64.to_bits();
    assert_eq!(cap_star(9.447094691607028f64.to_bits(), cutoff), (cutoff, true));
    assert_eq!(cap_star(2.0000000000000004f64.to_bits(), cutoff), (cutoff, true));
    assert_eq!(cap_star(2.0f64.to_bits(), cutoff), (cutoff, false));
    assert_eq!(
        cap_star(1.9999999999999998f64.to_bits(), cutoff),
        (1.9999999999999998f64.to_bits(), false)
    );
    assert_eq!(cap_star(f64::INFINITY.to_bits(), cutoff), (cutoff, true));
    assert_eq!(cap_star(f64::NAN.to_bits(), cutoff), (f64::NAN.to_bits(), false));
    assert_eq!(cap_star(3.0f64.to_bits(), f64::NAN.to_bits()), (3.0f64.to_bits(), false));
}

#[test]
fn star_violates_on_a_mass_that_is_not_positive() {
    let cutoff = 2.0f64.to_bits();
    assert!(star_violates(1.0f64.to_bits(), 0.0f64.to_bits(), cutoff));
    assert!(star_violates(1.0f64.to_bits(), (-0.5f64).to_bits(), cutoff));
    assert!(star_violates(1.0f64.to_bits(), f64::NAN.to_bits(), cutoff));
    assert!(star_violates(1.0f64.to_bits(), 3.0f64.to_bits(), (-2.0f64).to_bits()));
    assert!(!star_violates(1.0f64.to_bits(), 1.5f64.to_bits(), cutoff));
    assert!(!star_violates(1.0f64.to_bits(), 3.0f64.to_bits(), cutoff));
}

#[test]
fn star_violates_when_it_was_already_above_the_ceiling() {
    let cutoff = 2.0f64.to_bits();
    assert!(star_violates(2.5f64.to_bits(), 2.6f64.to_bits(), cutoff));
    assert!(star_violates(2.5f64.to_bits(), 2.0f64.to_bits(), cutoff));
    assert!(!star_violates(2.5f64.to_bits(), 1.9f64.to_bits(), cutoff));
    assert!(!star_violates(2.0f64.to_bits(), 2.6f64.to_bits(), cutoff));
}

#[test]
fn settle_cuts_and_masks_star_by_star() {
    let old = bits(&[1.0, 1.5, 2.0, 0.5]);
    let uncapped = bits(&[1.25, 9.0, 2.0, 2.0000000000000004]);
    let s = settle(&old, &uncapped, 2.0f64.to_bits()).unwrap();
    assert_eq!(floats(&s.new_masses), vec![1.25, 2.0, 2.0, 2.0]);
    assert_eq!(s.clipped, vec![false, true, false, true]);
}

#[test]
fn accretion_settle_of_no_stars_is_empty() {
    let empty: Vec<u64> = Vec::new();
    let s = settle(&empty, &empty, 2.0f64.to_bits()).unwrap();
    assert!(s.new_masses.is_empty());
    assert!(s.clipped.is_empty());
}

#[test]
fn accretion_settle_rejects_arrays_of_different_lengths() {
    let old = bits(&[1.0, 1.5]);
    let r = settle(&old, &bits(&[1.0]), 2.0f64.to_bits());
    assert_eq!(r.err(), Some(KernelError::InvalidInput));
    let r = settle(&old, &bits(&[1.0, 1.5, 1.7]), 2.0f64.to_bits());
    assert_eq!(r.err(), Some(KernelError::InvalidInput));
}

#[test]
fn accretion_settle_reports_the_first_violation() {
    let old = bits(&[1.0, 1.5, 3.0, 1.0]);
    let r = settle(&old, &bits(&[1.0, 1.6, 3.5, -1.0]), 2.0f64.to_bits());
    assert_eq!(r.err(), Some(KernelError::PhysicalInvariantViolation { index: 2 }));
    let r = settle(&old, &bits(&[1.0, 0.0, 3.5, -1.0]), 2.0f64.to_bits());
    assert_eq!(r.err(), Some(KernelError::PhysicalInvariantViolation { index: 1 }));
    let r = settle(&bits(&[1.0]), &bits(&[f64::NAN]), 2.0f64.to_bits());
    assert_eq!(r.err(), Some(KernelError::PhysicalInvariantViolation { index: 0 }));
}

#[test]
fn every_settled_mass_is_positive_and_at_most_the_ceiling() {
    let old = bits(&[0.1, 0.2, 1.0, 1.99, 2.0]);
    let uncapped = bits(&[0.1, 0.3, 5.0, f64::INFINITY, 2.0]);
    let s = settle(&old, &uncapped, 2.0f64.to_bits()).unwrap();
    assert_eq!(s.new_masses.len(), 5);
    for m in floats(&s.new_masses) {
        assert!(m > 0.0);
        assert!(m <= 2.0);
    }
}

#[test]
fn one_star_grows_and_one_is_held_at_the_ceiling() {
    let smbh = 1.0e8;
    let scale = r_g(smbh);
    assert!(close(scale, 147662504010.82578, 1e-12));
    let p = Population {
        masses: vec![1.0, 1.5],
        orbits: vec![1000.0, 1000.0],
        sound_speed: vec![1.0e4, 1.0e4],
        density: vec![1.0e-12, 1.0e-7],
    };
    let out = accretion_pass(&p, 4.0, 2.0, smbh, 1.0e4, scale).unwrap();

    assert_eq!(out.new_masses.len(), 2);
    assert_eq!(out.clipped, vec![false, true]);

    assert!(close(out.gains[0], 6.0647683404842554e-5, 1e-9));
    assert!(close(out.gains[1], 7.947094691607028, 1e-9));

    assert_eq!(out.new_masses[0], 1.0 + out.gains[0]);
    assert!(close(out.new_masses[0], 1.0000606476834049, 1e-12));
    assert_eq!(out.new_masses[1], 2.0);

    assert!(close(out.total_gained, out.gains[0] + out.gains[1], 1e-12));
    assert_eq!(out.total_immortal_lost, out.gains[1] - (2.0 - 1.5));
    assert!(close(out.total_immortal_lost, 7.447094691607028, 1e-9));
}

#[test]
fn star_well_below_the_ceiling_gives_nothing_back() {
    let smbh = 1.0e8;
    let p = Population {
        masses: vec![1.0],
        orbits: vec![1000.0],
        sound_speed: vec![1.0e4],
        density: vec![1.0e-12],
    };
    let out = accretion_pass(&p, 4.0, 300.0, smbh, 1.0e4, r_g(smbh)).unwrap();
    assert_eq!(out.clipped, vec![false]);
    assert_eq!(out.new_masses[0], 1.0 + out.gains[0]);
    assert_eq!(out.total_immortal_lost, 0.0);
    assert_eq!(out.total_gained, out.gains[0]);
}

#[test]
fn accretion_pass_of_no_stars_is_empty_with_zero_totals() {
    let p = Population { masses: vec![], orbits: vec![], sound_speed: vec![], density: vec![] };
    let out = accretion_pass(&p, 4.0, 2.0, 1.0e8, 1.0e4, r_g(1.0e8)).unwrap();
    assert!(out.new_masses.is_empty());
    assert!(out.clipped.is_empty());
    assert_eq!(out.total_gained, 0.0);
    assert_eq!(out.total_immortal_lost, 0.0);
}

#[test]
fn accretion_pass_rejects_a_star_at_rest_in_cold_gas() {
    let p = Population {
        masses: vec![1.0, 1.0],
        orbits: vec![1000.0, 1000.0],
        sound_speed: vec![1.0e4, 0.0],
        density: vec![1.0e-12, 1.0e-12],
    };
    let r = accretion_pass(&p, 4.0, 2.0, 1.0e8, 1.0e4, r_g(1.0e8));
    assert_eq!(r.err(), Some(KernelError::NonPhysicalInput { index: 1 }));
}
