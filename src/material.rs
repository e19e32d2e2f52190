use vstd::prelude::*;

verus! {

/// The kind of a surface material.
#[derive(Debug, Clone, Copy, PartialEq, Eq, Structural)]
pub enum MaterialKind {
    /// Diffuse: scatters around the normal.
    Lambertian,
    /// Reflective, with a roughness.
    Metal,
    /// Transparent and refractive (glass).
    Dielectric,
}

/// What happens to light that hits a surface.
#[derive(Debug, Clone, Copy, PartialEq, Eq, Structural)]
pub enum ScatterChoice {
    /// Scattered diffusely around the normal.
    Diffuse,
    /// Reflected about the normal.
    Reflect,
    /// Refracted through the surface.
    Refract,
    /// Absorbed: the ray ends.
    Absorb,
}

/// How a material of kind `kind` treats an incoming ray, given the geometric
/// facts its decision rests on:
/// - `leaves_surface`: a metal's outgoing direction points away from the
///   surface (its dot product with the normal is positive);
/// - `cannot_refract`: for glass, the refraction ratio times the sine of the
///   incidence angle exceeds 1 (total internal reflection);
/// - `draw_below_reflectance`: for glass, the uniform random draw fell below
///   Schlick's reflectance.
pub fn scatter_choice(
    kind: MaterialKind,
    leaves_surface: bool,
    cannot_refract: bool,
    draw_below_reflectance: bool,
) -> (c: ScatterChoice)
    ensures
        kind == MaterialKind::Lambertian ==> c == ScatterChoice::Diffuse,
        kind == MaterialKind::Metal ==> c == (if leaves_surface {
            ScatterChoice::Reflect
        } else {
            ScatterChoice::Absorb
        }),
        kind == MaterialKind::Dielectric ==> c == (if cannot_refract || draw_below_reflectance {
            ScatterChoice::Reflect
        } else {
            ScatterChoice::Refract
        }),
        c == ScatterChoice::Absorb <==> (kind == MaterialKind::Metal && !leaves_surface),
{
    match kind {
        MaterialKind::Lambertian => ScatterChoice::Diffuse,
        MaterialKind::Metal => {
            if leaves_surface {
                ScatterChoice::Reflect
            } else {
                ScatterChoice::Absorb
            }
        },
        MaterialKind::Dielectric => {
            if cannot_refract || draw_below_reflectance {
                ScatterChoice::Reflect
            } else {
                ScatterChoice::Refract
            }
        },
    }
}

} // verus!
