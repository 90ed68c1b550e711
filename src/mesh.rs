//! Turning a loader's flat mesh arrays into the engine's mesh data, with the
//! checks the renderer relies on: whole triples, one normal per position, and
//! every index naming a vertex and fitting in 16 bits.
use vstd::prelude::*;

verus! {

/// The largest index a 16-bit index buffer can hold.
pub const MAX_INDEX: u32 = 65535;

/// Why a loaded mesh was refused.
#[derive(Clone, Copy, Debug, PartialEq, Eq, Structural)]
pub enum MeshError {
    /// The flat position array does not split into triples.
    PositionsNotTriples,
    /// The flat normal array does not split into triples.
    NormalsNotTriples,
    /// There is not exactly one normal per position.
    CountMismatch { positions: usize, normals: usize },
    /// The index at `position` does not fit in 16 bits.
    IndexTooLarge { position: usize, value: u32 },
    /// The index at `position` names no vertex.
    IndexOutOfRange { position: usize, value: u32 },
}

/// Mesh data ready for upload: one normal per position, triangle indices.
pub struct MeshData<T> {
    pub positions: Vec<[T; 3]>,
    pub normals: Vec<[T; 3]>,
    pub indices: Vec<u16>,
}

impl<T> MeshData<T> {
    /// One normal per position, and every index names a position.
    pub open spec fn wf(&self) -> bool {
        &&& self.positions@.len() == self.normals@.len()
        &&& forall|j: int| 0 <= j < self.indices@.len() ==> (#[trigger] self.indices@[j] as int) < self.positions@.len()
    }
}

/// `out` holds the consecutive triples of `flat`, in order.
pub open spec fn is_triples_of<T>(out: Seq<[T; 3]>, flat: Seq<T>) -> bool {
    &&& flat.len() == 3 * out.len()
    &&& forall|i: int| 0 <= i < out.len() ==> #[trigger] out[i]@ == seq![flat[3 * i], flat[3 * i + 1], flat[3 * i + 2]]
}

/// An index that fits in 16 bits and names one of `vertices` vertices.
pub open spec fn index_fits(value: u32, vertices: int) -> bool {
    value <= MAX_INDEX && value < vertices
}

/// `k` is the first index of `indices` that does not fit.
pub open spec fn is_first_bad_index(indices: Seq<u32>, vertices: int, k: int) -> bool {
    &&& 0 <= k < indices.len()
    &&& !index_fits(indices[k], vertices)
    &&& forall|j: int| 0 <= j < k ==> index_fits(#[trigger] indices[j], vertices)
}

/// The error reported for the index at `k`.
pub open spec fn index_error(indices: Seq<u32>, k: int) -> MeshError {
    if indices[k] > MAX_INDEX {
        MeshError::IndexTooLarge { position: k as usize, value: indices[k] }
    } else {
        MeshError::IndexOutOfRange { position: k as usize, value: indices[k] }
    }
}

/// Splits a flat array into consecutive triples; `None` when its length is
/// not a multiple of three.
pub fn group_triples<T: Copy>(flat: &Vec<T>) -> (r: Option<Vec<[T; 3]>>)
    ensures
        r is None <==> flat@.len() % 3 != 0,
        r matches Some(out) ==> is_triples_of(out@, flat@),
{
    if flat.len() % 3 != 0 {
        return None;
    }
    let len = flat.len();
    let count = len / 3;
    let mut out: Vec<[T; 3]> = Vec::with_capacity(count);
    let mut i: usize = 0;
    while i < count
        invariant
            len == flat@.len(),
            count == flat@.len() / 3,
            flat@.len() % 3 == 0,
            i <= count,
            out@.len() == i,
            forall|k: int| 0 <= k < i ==> #[trigger] out@[k]@ == seq![flat@[3 * k], flat@[3 * k + 1], flat@[3 * k + 2]],
        decreases count - i,
    {
        assert(3 * i + 2 < flat@.len()) by (nonlinear_arith)
            requires
                i < count,
                count == len / 3,
                len % 3 == 0,
                len == flat@.len(),
        ;
        let t = [flat[3 * i], flat[3 * i + 1], flat[3 * i + 2]];
        assert(t@ =~= seq![flat@[3 * i], flat@[3 * i + 1], flat@[3 * i + 2]]);
        out.push(t);
        i = i + 1;
    }
    Some(out)
}

/// Narrows each index to 16 bits after checking that it names one of
/// `vertices` vertices; on failure reports the first index that does not fit.
pub fn narrow_indices(indices: &Vec<u32>, vertices: usize) -> (r: Result<Vec<u16>, MeshError>)
    ensures
        r is Ok <==> forall|j: int| 0 <= j < indices@.len() ==> index_fits(#[trigger] indices@[j], vertices as int),
        r matches Ok(out) ==> out@.len() == indices@.len() && forall|j: int|
            0 <= j < indices@.len() ==> #[trigger] out@[j] as u32 == indices@[j],
        r matches Err(e) ==> exists|k: int| is_first_bad_index(indices@, vertices as int, k) && e == index_error(indices@, k),
{
    let mut out: Vec<u16> = Vec::with_capacity(indices.len());
    let mut i: usize = 0;
    while i < indices.len()
        invariant
            i <= indices@.len(),
            out@.len() == i,
            forall|j: int| 0 <= j < i ==> index_fits(#[trigger] indices@[j], vertices as int),
            forall|j: int| 0 <= j < i ==> #[trigger] out@[j] as u32 == indices@[j],
        decreases indices@.len() - i,
    {
        let value = indices[i];
        if value > MAX_INDEX {
            let e = MeshError::IndexTooLarge { position: i, value };
            proof {
                assert(is_first_bad_index(indices@, vertices as int, i as int));
                assert(e == index_error(indices@, i as int));
            }
            return Err(e);
        }
        if value as usize >= vertices {
            let e = MeshError::IndexOutOfRange { position: i, value };
            proof {
                assert(is_first_bad_index(indices@, vertices as int, i as int));
                assert(e == index_error(indices@, i as int));
            }
            return Err(e);
        }
        out.push(value as u16);
        i = i + 1;
    }
    Ok(out)
}

/// The error of a mesh whose flat arrays have `positions` and `normals`
/// values, if their shape alone is wrong.
pub open spec fn shape_error(positions: int, normals: int) -> Option<MeshError> {
    if positions % 3 != 0 {
        Some(MeshError::PositionsNotTriples)
    } else if normals % 3 != 0 {
        Some(MeshError::NormalsNotTriples)
    } else if positions != normals {
        Some(MeshError::CountMismatch { positions: (positions / 3) as usize, normals: (normals / 3) as usize })
    } else {
        None
    }
}

/// Builds mesh data from a loader's flat position and normal arrays and its
/// index list. The shape is checked first (triples, one normal per
/// position), then the indices in order.
pub fn build_mesh<T: Copy>(positions: &Vec<T>, normals: &Vec<T>, indices: &Vec<u32>) -> (r: Result<MeshData<T>, MeshError>)
    ensures
        shape_error(positions@.len() as int, normals@.len() as int) matches Some(e) ==> r == Err::<MeshData<T>, MeshError>(e),
        shape_error(positions@.len() as int, normals@.len() as int) is None ==> {
            &&& r is Ok <==> forall|j: int| 0 <= j < indices@.len() ==> index_fits(#[trigger] indices@[j], positions@.len() as int / 3)
            &&& r matches Err(e) ==> exists|k: int| is_first_bad_index(indices@, positions@.len() as int / 3, k) && e == index_error(indices@, k)
        },
        r matches Ok(mesh) ==> {
            &&& mesh.wf()
            &&& is_triples_of(mesh.positions@, positions@)
            &&& is_triples_of(mesh.normals@, normals@)
            &&& mesh.indices@.len() == indices@.len()
            &&& forall|j: int| 0 <= j < indices@.len() ==> #[trigger] mesh.indices@[j] as u32 == indices@[j]
        },
{
    let grouped_positions = match group_triples(positions) {
        Some(p) => p,
        None => return Err(MeshError::PositionsNotTriples),
    };
    let grouped_normals = match group_triples(normals) {
        Some(n) => n,
        None => return Err(MeshError::NormalsNotTriples),
    };
    if grouped_positions.len() != grouped_normals.len() {
        return Err(MeshError::CountMismatch { positions: grouped_positions.len(), normals: grouped_normals.len() });
    }
    let narrowed = match narrow_indices(indices, grouped_positions.len()) {
        Ok(n) => n,
        Err(e) => return Err(e),
    };
    Ok(MeshData { positions: grouped_positions, normals: grouped_normals, indices: narrowed })
}

} // verus!
