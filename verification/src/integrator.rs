//! Decisions of the radiance integrator.
//!
//! The integrator follows a path bounce by bounce. At each bounce the
//! world answers with one of a few outcomes — the ray missed everything,
//! the surface does not scatter, the bounce is specular, or a diffuse
//! bounce was sampled with a positive or a zero mixture density — and
//! the integrator decides what the bounce contributes and whether the
//! path goes on. Those decisions are made here; the f64 intersection,
//! sampling and radiance arithmetic they steer stay with the caller.

use vstd::prelude::*;

verus! {

/// What the world answered at one bounce of a path.
#[derive(Clone, Copy, PartialEq, Eq, Structural, Debug)]
pub enum BounceEvent {
    /// The ray hit nothing.
    Miss,
    /// The surface hit does not scatter (an emitter, or an absorbed ray).
    NoScatter,
    /// A mirror or refractive bounce: one outgoing ray, no density.
    Specular,
    /// A diffuse bounce: a direction was drawn from the mixture of light
    /// and surface densities, whose value at that direction is positive
    /// or not.
    Scatter { density_positive: bool },
}

/// What the bounce contributes.
#[derive(Clone, Copy, PartialEq, Eq, Structural, Debug)]
pub enum BounceAction {
    /// The background color: the path left the scene.
    Background,
    /// The surface's emission alone: the path ends here.
    EmissionOnly,
    /// The specular ray's radiance scaled by the attenuation, one level
    /// deeper.
    SpecularBounce { next_depth: u64 },
    /// The emission plus the sampled ray's radiance weighed by
    /// attenuation and scattering density over the mixture density, one
    /// level deeper.
    MixtureBounce { next_depth: u64 },
}

/// Whether a path with this much depth left may bounce again; a path
/// out of depth contributes black, whatever it would have hit.
pub fn continue_path(remaining_depth: u64) -> (r: bool)
    ensures
        r <==> remaining_depth > 0,
{
    remaining_depth > 0
}

/// What one bounce of a path with depth left contributes: a miss ends
/// the path on the background, a surface that does not scatter ends it
/// on its emission alone, a specular bounce recurses undimmed by any
/// density, and a diffuse bounce recurses density-weighted — unless the
/// mixture density came out zero, in which case the bounce contributes
/// nothing beyond the emission.
pub fn bounce_action(remaining_depth: u64, event: BounceEvent) -> (r: BounceAction)
    requires
        remaining_depth >= 1,
    ensures
        r == (match event {
            BounceEvent::Miss => BounceAction::Background,
            BounceEvent::NoScatter => BounceAction::EmissionOnly,
            BounceEvent::Specular => BounceAction::SpecularBounce {
                next_depth: (remaining_depth - 1) as u64,
            },
            BounceEvent::Scatter { density_positive } => {
                if density_positive {
                    BounceAction::MixtureBounce { next_depth: (remaining_depth - 1) as u64 }
                } else {
                    BounceAction::EmissionOnly
                }
            },
        }),
{
    match event {
        BounceEvent::Miss => BounceAction::Background,
        BounceEvent::NoScatter => BounceAction::EmissionOnly,
        BounceEvent::Specular => BounceAction::SpecularBounce {
            next_depth: remaining_depth - 1,
        },
        BounceEvent::Scatter { density_positive } => {
            if density_positive {
                BounceAction::MixtureBounce { next_depth: remaining_depth - 1 }
            } else {
                BounceAction::EmissionOnly
            }
        },
    }
}

} // verus!
