//! Physical constants, in SI base units.
//!
//! Every constant here has an exact integer value in its SI unit, so the
//! table can be shared by verified code and by callers that work in floating
//! point (a cast to `f64` rounds to the nearest representable value, the same
//! value the usual decimal literals denote).

use vstd::prelude::*;

verus! {

/// Speed of light in vacuum, m/s (exact by definition of the metre).
pub const SPEED_OF_LIGHT: u64 = 299_792_458;

/// Mean radius of Earth, m.
pub const RADIUS_OF_EARTH: u64 = 6_371_000;

/// Mass of Earth, kg.
pub const MASS_OF_EARTH: u128 = 5_972_000_000_000_000_000_000_000;

/// Mean radius of the Moon, m.
pub const RADIUS_OF_MOON: u64 = 1_737_400;

/// Mass of the Moon, kg.
pub const MASS_OF_MOON: u128 = 73_476_730_900_000_000_000_000;

/// Radius of the Sun, m.
pub const RADIUS_OF_SUN: u64 = 695_500_000;

/// Mass of the Sun, kg.
pub const MASS_OF_SUN: u128 = 1_988_470_000_000_000_000_000_000_000_000;

/// Mean radius of Mars, m.
pub const RADIUS_OF_MARS: u64 = 3_389_500;

/// Mass of Mars, kg.
pub const MASS_OF_MARS: u128 = 641_650_000_000_000_000_000_000;

} // verus!
