use vstd::prelude::*;

verus! {

/// How a reflected ray leaves a surface.
#[derive(Clone, Copy, Debug, PartialEq, Eq, Structural)]
pub enum Reflection {
    /// Part of the light, as the Fresnel reflectance gives it.
    Partial,
    /// All of the light: refraction is impossible at this angle.
    Total,
}

/// Which rays leave a surface that a ray strikes.
#[derive(Clone, Copy, Debug, PartialEq, Eq, Structural)]
pub struct RayPlan {
    pub reflection: Option<Reflection>,
    pub refraction: bool,
}

/// Decides the outgoing rays of a physical material. `refracts` tells whether
/// Snell's law admits a refracted direction at this angle. When it does not,
/// the light is totally reflected and nothing is transmitted; otherwise a
/// reflective material reflects part of it and a transmissive one transmits
/// the rest.
pub fn ray_plan(reflective: bool, transmissive: bool, refracts: bool) -> (r: RayPlan)
    ensures
        !refracts ==> r == (RayPlan { reflection: Some(Reflection::Total), refraction: false }),
        refracts ==> r == (RayPlan {
            reflection: if reflective {
                Some(Reflection::Partial)
            } else {
                None
            },
            refraction: transmissive,
        }),
{
    if !refracts {
        return RayPlan { reflection: Some(Reflection::Total), refraction: false };
    }
    RayPlan {
        reflection: if reflective {
            Some(Reflection::Partial)
        } else {
            None
        },
        refraction: transmissive,
    }
}

} // verus!
