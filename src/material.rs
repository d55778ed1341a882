//! The scatter rules of the three materials.
//!
//! Each rule looks at one or two sign tests on the hit (made by the caller on
//! the floating-point geometry) and decides along what the ray leaves the
//! surface, or that it is absorbed.

use vstd::prelude::*;

verus! {

/// The tests that a material's scatter rule reads.
#[derive(Clone, Copy, Debug, PartialEq, Eq, Structural)]
pub enum ScatterTest {
    /// Diffuse surface: whether `normal + random unit vector` is near zero in
    /// every component.
    Lambertian { near_zero: bool },
    /// Metal: whether the fuzzed reflection points away from the surface
    /// (its dot product with the normal is positive).
    Metal { leaves_surface: bool },
    /// Glass: whether refraction is impossible (`ratio * sin_theta > 1`) and
    /// whether the Schlick reflectance exceeds a fresh uniform draw.
    Dielectric { cannot_refract: bool, reflectance_wins: bool },
}

/// Along what a ray leaves the surface.
#[derive(Clone, Copy, Debug, PartialEq, Eq, Structural)]
pub enum Scatter {
    /// Along the normal plus a random unit vector.
    Diffuse,
    /// Along the normal itself, the random vector having nearly cancelled it.
    Normal,
    /// Along the mirror reflection of the unit incoming direction plus fuzz
    /// times a random point in the unit ball.
    FuzzedReflection,
    /// Along the mirror reflection of the unit incoming direction.
    Reflection,
    /// Along the refraction of the unit incoming direction (Snell's law).
    Refraction,
    /// Not at all: the ray is absorbed.
    Absorbed,
}

/// The scatter rules.
pub open spec fn scatter_rule(t: ScatterTest) -> Scatter {
    match t {
        ScatterTest::Lambertian { near_zero } => if near_zero {
            Scatter::Normal
        } else {
            Scatter::Diffuse
        },
        ScatterTest::Metal { leaves_surface } => if leaves_surface {
            Scatter::FuzzedReflection
        } else {
            Scatter::Absorbed
        },
        ScatterTest::Dielectric { cannot_refract, reflectance_wins } => if cannot_refract
            || reflectance_wins {
            Scatter::Reflection
        } else {
            Scatter::Refraction
        },
    }
}

/// Decides how a ray leaves a surface. Diffuse and glass surfaces always
/// scatter; a metal absorbs the ray when its fuzzed reflection would dip
/// below the surface.
pub fn scatter(t: ScatterTest) -> (r: Scatter)
    ensures
        r == scatter_rule(t),
        r is Absorbed <==> t == (ScatterTest::Metal { leaves_surface: false }),
{
    match t {
        ScatterTest::Lambertian { near_zero } => {
            if near_zero {
                Scatter::Normal
            } else {
                Scatter::Diffuse
            }
        },
        ScatterTest::Metal { leaves_surface } => {
            if leaves_surface {
                Scatter::FuzzedReflection
            } else {
                Scatter::Absorbed
            }
        },
        ScatterTest::Dielectric { cannot_refract, reflectance_wins } => {
            if cannot_refract || reflectance_wins {
                Scatter::Reflection
            } else {
                Scatter::Refraction
            }
        },
    }
}

} // verus!
