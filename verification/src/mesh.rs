//! Expansion of indexed meshes into flat vertex lists, one vertex per index,
//! as drawn by a non-indexed triangle pipeline.
use vstd::prelude::*;

verus! {

/// Every index of the mesh refers to one of its vertices.
pub open spec fn indices_in_bounds<T>(vertices: Seq<T>, indices: Seq<u32>) -> bool {
    forall|k: int| 0 <= k < indices.len() ==> (#[trigger] indices[k] as int) < vertices.len()
}

/// Converts an indexed mesh to an expanded vertex list: the `k`-th vertex of
/// the result is the vertex that the `k`-th index names.
pub fn expand_indexed_mesh<T: Copy>(vertices: &[T], indices: &[u32]) -> (out: Vec<T>)
    requires
        indices_in_bounds(vertices@, indices@),
    ensures
        out@.len() == indices@.len(),
        forall|k: int| 0 <= k < indices@.len() ==> #[trigger] out@[k] == vertices@[indices@[k] as int],
{
    let mut out: Vec<T> = Vec::with_capacity(indices.len());
    let mut k: usize = 0;
    while k < indices.len()
        invariant
            indices_in_bounds(vertices@, indices@),
            k <= indices@.len(),
            out@.len() == k,
            forall|j: int| 0 <= j < k ==> #[trigger] out@[j] == vertices@[indices@[j] as int],
        decreases indices@.len() - k,
    {
        let index = indices[k];
        proof {
            assert((indices@[k as int] as int) < vertices@.len());
        }
        out.push(vertices[index as usize]);
        k = k + 1;
    }
    out
}

} // verus!
