//! Triangle-mesh index assembly.
//!
//! A mesh is built from a shared vertex buffer and a flat index buffer in
//! which every three consecutive entries name the corners of one triangle.
//! The grouping of that buffer into corner triples is the discrete part of
//! mesh construction; turning each triple into a triangle over the
//! floating-point vertex positions is the caller's side.

use vstd::prelude::*;

verus! {

/// Groups a flat index buffer into corner triples: entry `k` of the result
/// is `(indices[3k], indices[3k+1], indices[3k+2])`. A trailing remainder
/// shorter than three is dropped.
pub fn triangle_triples(indices: &Vec<u32>) -> (r: Vec<(u32, u32, u32)>)
    ensures
        r@.len() == indices@.len() / 3,
        forall|k: int|
            0 <= k < r@.len() ==> r@[k] == (indices@[3 * k], indices@[3 * k + 1], indices@[3 * k
                + 2]),
{
    let n = indices.len();
    let count = n / 3;
    let mut r: Vec<(u32, u32, u32)> = Vec::new();
    let mut t: usize = 0;
    while t < count
        invariant
            n == indices@.len(),
            count == indices@.len() / 3,
            t <= count,
            r@.len() == t,
            forall|k: int|
                0 <= k < t ==> r@[k] == (indices@[3 * k], indices@[3 * k + 1], indices@[3 * k + 2]),
        decreases count - t,
    {
        assert(3 * t + 2 < n);
        r.push((indices[3 * t], indices[3 * t + 1], indices[3 * t + 2]));
        t = t + 1;
    }
    r
}

/// True iff every corner of every triple names a vertex: each component is
/// below the vertex count.
pub fn triples_in_range(triples: &Vec<(u32, u32, u32)>, vertex_count: usize) -> (r: bool)
    ensures
        r <==> forall|k: int|
            0 <= k < triples@.len() ==> (triples@[k].0 < vertex_count && triples@[k].1
                < vertex_count && triples@[k].2 < vertex_count),
{
    let mut k: usize = 0;
    while k < triples.len()
        invariant
            k <= triples@.len(),
            forall|m: int|
                0 <= m < k ==> (triples@[m].0 < vertex_count && triples@[m].1 < vertex_count
                    && triples@[m].2 < vertex_count),
        decreases triples@.len() - k,
    {
        let (a, b, c) = triples[k];
        if !((a as usize) < vertex_count && (b as usize) < vertex_count && (c as usize)
            < vertex_count) {
            return false;
        }
        k = k + 1;
    }
    true
}

} // verus!
