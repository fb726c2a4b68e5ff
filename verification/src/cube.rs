//! Face plan of the axis-aligned box.
//!
//! A box is assembled from six quads, one per face: for each of the
//! three planes, one face at the box's high corner coordinate and one at
//! its low. Which plane each face lies in and which corner supplies its
//! constant coordinate is decided here; the f64 corner coordinates the
//! plan is applied to are the caller's.

use crate::axis::Plane;
use vstd::prelude::*;

verus! {

/// One face of the box: the plane it lies in, and whether its constant
/// coordinate comes from the box's high corner (else the low one). The
/// face's two free extents always run from the low corner to the high
/// one on the plane's two free axes.
#[derive(Clone, Copy, PartialEq, Eq, Structural, Debug)]
pub struct CubeFace {
    pub plane: Plane,
    pub high: bool,
}

/// The six faces, one plane at a time, the high face before the low one.
pub fn cube_faces() -> (r: Vec<CubeFace>)
    ensures
        r@ == seq![
            CubeFace { plane: Plane::XY, high: true },
            CubeFace { plane: Plane::XY, high: false },
            CubeFace { plane: Plane::XZ, high: true },
            CubeFace { plane: Plane::XZ, high: false },
            CubeFace { plane: Plane::YZ, high: true },
            CubeFace { plane: Plane::YZ, high: false },
        ],
{
    let mut r: Vec<CubeFace> = Vec::new();
    r.push(CubeFace { plane: Plane::XY, high: true });
    r.push(CubeFace { plane: Plane::XY, high: false });
    r.push(CubeFace { plane: Plane::XZ, high: true });
    r.push(CubeFace { plane: Plane::XZ, high: false });
    r.push(CubeFace { plane: Plane::YZ, high: true });
    r.push(CubeFace { plane: Plane::YZ, high: false });
    proof {
        assert(r@ =~= seq![
            CubeFace { plane: Plane::XY, high: true },
            CubeFace { plane: Plane::XY, high: false },
            CubeFace { plane: Plane::XZ, high: true },
            CubeFace { plane: Plane::XZ, high: false },
            CubeFace { plane: Plane::YZ, high: true },
            CubeFace { plane: Plane::YZ, high: false },
        ]);
    }
    r
}

} // verus!
