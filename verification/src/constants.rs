//! The physical constants shared by the kernels, each as the bit pattern of
//! its binary64 value in SI units.

use vstd::prelude::*;
use crate::binary64::positive;

verus! {

/// Mass of the sun, 1.9884099e30 kg.
pub const M_SUN_KG: u64 = 0x4639_18E6_1E7C_9590u64;

/// Radius of the sun, 6.957e8 m.
pub const R_SUN_M: u64 = 0x41C4_BBC5_1000_0000u64;

/// Speed of light as the kernels take it, 2.9979246e8 m/s.
pub const C_SI: u64 = 0x41B1_DE78_4C00_0000u64;

/// Gravitational constant, 6.67430e-11 m^3 kg^-1 s^-2.
pub const G_SI: u64 = 0x3DD2_589E_FFED_8ACCu64;

/// Luminosity of the sun, 3.828e26 W.
pub const L_SUN_W: u64 = 0x4573_CA50_D94D_4D4Fu64;

/// Seconds in a Julian year, 3.15576e7.
pub const YR_S: u64 = 0x417E_187E_0000_0000u64;

/// Every constant is a strictly positive number, so none of them can turn a
/// divisor into zero or a product into a NaN by itself.
pub proof fn lemma_constants_positive()
    ensures
        positive(M_SUN_KG),
        positive(R_SUN_M),
        positive(C_SI),
        positive(G_SI),
        positive(L_SUN_W),
        positive(YR_S),
{
}

} // verus!
