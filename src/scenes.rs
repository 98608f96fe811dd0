use vstd::prelude::*;

verus! {

/// A mesh's index buffer, in either of its encodings.
pub enum MeshIndices {
    U16(Vec<u16>),
    U32(Vec<u32>),
}

/// Why a terrain mesh gives no collider. The terrain is still shown; it is
/// just not solid.
#[derive(Clone, Copy, Debug, PartialEq, Eq, Structural)]
pub enum TerrainError {
    /// The mesh has no index buffer.
    MissingIndices,
    /// The index count is not a multiple of three.
    PartialTriangle,
}

pub open spec fn index_count(m: &MeshIndices) -> nat {
    match m {
        MeshIndices::U16(v) => v@.len(),
        MeshIndices::U32(v) => v@.len(),
    }
}

/// The `i`-th index, widened to 32 bits.
pub open spec fn index_at(m: &MeshIndices, i: int) -> u32 {
    match m {
        MeshIndices::U16(v) => v@[i] as u32,
        MeshIndices::U32(v) => v@[i],
    }
}

/// `t` cuts the index buffer into consecutive triples, in order.
pub open spec fn is_triangulation(t: Seq<[u32; 3]>, m: &MeshIndices) -> bool {
    &&& t.len() * 3 == index_count(m)
    &&& forall|i: int|
        0 <= i < t.len() ==> #[trigger] t[i]@ == seq![
            index_at(m, 3 * i),
            index_at(m, 3 * i + 1),
            index_at(m, 3 * i + 2),
        ]
}

impl MeshIndices {
    pub fn len(&self) -> (r: usize)
        ensures
            r == index_count(self),
    {
        match self {
            MeshIndices::U16(v) => v.len(),
            MeshIndices::U32(v) => v.len(),
        }
    }

    pub fn get(&self, i: usize) -> (r: u32)
        requires
            i < index_count(self),
        ensures
            r == index_at(self, i as int),
    {
        match self {
            MeshIndices::U16(v) => v[i] as u32,
            MeshIndices::U32(v) => v[i],
        }
    }
}

/// The triangles of a terrain collider: the index buffer cut into
/// consecutive triples. No buffer, or a count that leaves a partial
/// triangle, gives no collider.
pub fn terrain_triangles(indices: Option<&MeshIndices>) -> (r: Result<Vec<[u32; 3]>, TerrainError>)
    ensures
        match indices {
            None => r == Err::<Vec<[u32; 3]>, TerrainError>(TerrainError::MissingIndices),
            Some(m) => if index_count(m) % 3 != 0 {
                r == Err::<Vec<[u32; 3]>, TerrainError>(TerrainError::PartialTriangle)
            } else {
                r matches Ok(t) && is_triangulation(t@, m)
            },
        },
{
    let m = match indices {
        None => {
            return Err(TerrainError::MissingIndices);
        },
        Some(m) => m,
    };
    let n = m.len();
    if n % 3 != 0 {
        return Err(TerrainError::PartialTriangle);
    }
    let count = n / 3;
    let mut out: Vec<[u32; 3]> = Vec::new();
    let mut i: usize = 0;
    while i < count
        invariant
            n == index_count(m),
            count * 3 == n,
            i <= count,
            out@.len() == i,
            forall|k: int|
                0 <= k < i ==> #[trigger] out@[k]@ == seq![
                    index_at(m, 3 * k),
                    index_at(m, 3 * k + 1),
                    index_at(m, 3 * k + 2),
                ],
        decreases count - i,
    {
        let base = 3 * i;
        let tri: [u32; 3] = [m.get(base), m.get(base + 1), m.get(base + 2)];
        assert(tri@ =~= seq![
            index_at(m, 3 * i as int),
            index_at(m, 3 * i + 1),
            index_at(m, 3 * i + 2),
        ]);
        out.push(tri);
        i = i + 1;
    }
    Ok(out)
}

} // verus!
