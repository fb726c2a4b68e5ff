//! Scene selection.
//!
//! The renderer offers a fixed set of example scenes, chosen by a selector
//! byte read from configuration. Which scene a selector names is decided
//! here; assembling the chosen scene's surfaces, materials and camera is
//! floating-point work left to the caller.

use vstd::prelude::*;

verus! {

/// The example scenes the renderer can assemble.
#[derive(Clone, Copy, PartialEq, Eq, Structural, Debug)]
pub enum SceneKind {
    /// Spheres of random materials scattered on a checkered ground.
    RandomSpheres,
    /// A single sphere textured with an image of the earth.
    EarthSphere,
    /// The classic box with one light, a glass sphere and a rotated cube.
    CornellBox,
    /// The showcase scene: cubes, moving sphere, glass, metal, noise.
    FinalScene,
    /// A box variant with a mesh, a triangle and an image-textured cube.
    CornellTest,
}

/// Which scene a selector byte asks for; any selector without a scene of
/// its own falls back to the random-sphere scene.
pub fn scene_kind(selector: u8) -> (r: SceneKind)
    ensures
        r == (match selector {
            1u8 => SceneKind::RandomSpheres,
            2u8 => SceneKind::EarthSphere,
            3u8 => SceneKind::CornellBox,
            4u8 => SceneKind::FinalScene,
            5u8 => SceneKind::CornellTest,
            _ => SceneKind::RandomSpheres,
        }),
{
    match selector {
        1 => SceneKind::RandomSpheres,
        2 => SceneKind::EarthSphere,
        3 => SceneKind::CornellBox,
        4 => SceneKind::FinalScene,
        5 => SceneKind::CornellTest,
        _ => SceneKind::RandomSpheres,
    }
}

} // verus!
