//! Coordinate-axis index maps.
//!
//! An axis-aligned quad lies in one of three planes, and a rotation turns
//! about one of three axes. Both are described by a triple of coordinate
//! indices `(k, a, b)`: `k` is the fixed axis (the plane's normal, or the
//! rotation axis) and `a`, `b` are the two free axes. The placement
//! helper scatters three per-axis values back into coordinate order
//! under such a triple.

use vstd::prelude::*;

verus! {

/// One of the three coordinate axes, used to pick a rotation axis.
#[derive(Clone, Copy, PartialEq, Eq, Structural, Debug)]
pub enum Axis {
    X,
    Y,
    Z,
}

/// One of the three axis-aligned planes a quad can lie in.
#[derive(Clone, Copy, PartialEq, Eq, Structural, Debug)]
pub enum Plane {
    XY,
    XZ,
    YZ,
}

/// True iff `(k, a, b)` is a permutation of the coordinate indices 0, 1, 2.
pub open spec fn is_axis_permutation(r: (usize, usize, usize)) -> bool {
    &&& r.0 < 3 && r.1 < 3 && r.2 < 3
    &&& r.0 != r.1 && r.0 != r.2 && r.1 != r.2
}

/// Index triple `(k, a, b)` for a rotation axis: `k` is the axis turned
/// about, `a` and `b` are the two axes the rotation mixes.
pub fn get_axis_index(axis: &Axis) -> (r: (usize, usize, usize))
    ensures
        axis is X ==> r == (0usize, 1usize, 2usize),
        axis is Y ==> r == (1usize, 0usize, 2usize),
        axis is Z ==> r == (2usize, 0usize, 1usize),
        is_axis_permutation(r),
{
    match axis {
        Axis::X => (0, 1, 2),
        Axis::Y => (1, 0, 2),
        Axis::Z => (2, 0, 1),
    }
}

impl Plane {
    /// Index triple `(k, a, b)` for a quad's plane: `k` is the axis the
    /// plane is perpendicular to, `a` and `b` span the plane.
    pub fn get_axis_index(&self) -> (r: (usize, usize, usize))
        ensures
            self is YZ ==> r == (0usize, 1usize, 2usize),
            self is XZ ==> r == (1usize, 0usize, 2usize),
            self is XY ==> r == (2usize, 0usize, 1usize),
            is_axis_permutation(r),
    {
        match self {
            Plane::YZ => (0, 1, 2),
            Plane::XZ => (1, 0, 2),
            Plane::XY => (2, 0, 1),
        }
    }
}

/// Scatters three values into coordinate order: given the index triple
/// `(k, a, b)` of a plane or rotation axis, returns the vector whose
/// component `slots.0` is `k_val`, component `slots.1` is `a_val` and
/// component `slots.2` is `b_val`. A quad's bounding box places its two
/// free extents and its padded plane coordinate with this, so each lands
/// on the axis it belongs to.
pub fn place_axis_values<T: Copy>(slots: (usize, usize, usize), k_val: T, a_val: T, b_val: T) -> (r:
    (T, T, T))
    requires
        is_axis_permutation(slots),
    ensures
        slots.0 == 0 ==> r.0 == k_val,
        slots.0 == 1 ==> r.1 == k_val,
        slots.0 == 2 ==> r.2 == k_val,
        slots.1 == 0 ==> r.0 == a_val,
        slots.1 == 1 ==> r.1 == a_val,
        slots.1 == 2 ==> r.2 == a_val,
        slots.2 == 0 ==> r.0 == b_val,
        slots.2 == 1 ==> r.1 == b_val,
        slots.2 == 2 ==> r.2 == b_val,
{
    let x = if slots.0 == 0 {
        k_val
    } else if slots.1 == 0 {
        a_val
    } else {
        b_val
    };
    let y = if slots.0 == 1 {
        k_val
    } else if slots.1 == 1 {
        a_val
    } else {
        b_val
    };
    let z = if slots.0 == 2 {
        k_val
    } else if slots.1 == 2 {
        a_val
    } else {
        b_val
    };
    (x, y, z)
}

} // verus!
