//! Selectors of the metric backend: the chart of a Kerr spacetime, the sense
//! of an orbit, and flat spacetime.

use vstd::prelude::*;

verus! {

/// Chart in which a Kerr spacetime is written.
#[derive(Clone, Copy, Debug, PartialEq, Eq, Structural)]
pub enum CoordinateSystem {
    /// Boyer-Lindquist: diagonal but for `g_tφ`, singular on the horizon.
    BoyerLindquist,
    /// Ingoing Kerr-Schild: regular on the horizon.
    KerrSchild,
}

impl CoordinateSystem {
    /// Whether a ray traced in this chart may cross the event horizon.
    pub fn regular_on_horizon(&self) -> (r: bool)
        ensures
            r == (*self == CoordinateSystem::KerrSchild),
    {
        match self {
            CoordinateSystem::BoyerLindquist => false,
            CoordinateSystem::KerrSchild => true,
        }
    }
}

/// Sense of a circular equatorial orbit relative to the hole's spin.
#[derive(Clone, Copy, Debug, PartialEq, Eq, Structural)]
pub enum Orbit {
    /// Co-rotating with the spin.
    Prograde,
    /// Counter-rotating against the spin.
    Retrograde,
}

/// The sign in front of the square root of the Bardeen-Press-Teukolsky
/// ISCO formula `M (3 + Z2 ∓ √((3 − Z1)(3 + Z1 + 2 Z2)))`.
pub open spec fn isco_root_sign_of(orbit: Orbit) -> int {
    match orbit {
        Orbit::Prograde => -1,
        Orbit::Retrograde => 1,
    }
}

impl Orbit {
    /// Sign of the root term of the ISCO formula for this orbit.
    pub fn isco_root_sign(&self) -> (r: i8)
        ensures
            r as int == isco_root_sign_of(*self),
    {
        match self {
            Orbit::Prograde => -1,
            Orbit::Retrograde => 1,
        }
    }
}

/// Flat spacetime in spherical coordinates: no mass, no spin, no horizon.
#[derive(Clone, Copy, Debug, PartialEq, Eq, Structural)]
pub struct Minkowski;

} // verus!
