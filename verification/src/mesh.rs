//! Triangle faces and the structural validation of loaded mesh data.
//!
//! A mesh is loaded from arrays of vertex attributes plus a flat index list;
//! this module checks the structural invariant — the index count is divisible
//! by three and every index addresses an existing vertex — and groups the
//! indices into [`Face`]s. Loading fails with a tagged [`LoadError`] and
//! returns no partial mesh.

use vstd::prelude::*;

verus! {

/// A triangle face: three 0-based indices into a mesh's vertex array.
#[derive(Clone, Copy, Debug, PartialEq, Eq, Structural)]
pub struct Face {
    pub a: u32,
    pub b: u32,
    pub c: u32,
}

impl Face {
    /// A face from its three vertex indices.
    pub fn new(a: u32, b: u32, c: u32) -> (f: Face)
        ensures
            f == (Face { a, b, c }),
    {
        Face { a, b, c }
    }
}

/// Why loading a mesh or a texture failed.
#[derive(Clone, Copy, Debug, PartialEq, Eq, Structural)]
pub enum LoadError {
    /// The file could not be read or parsed.
    Io,
    /// The file parsed but holds no model.
    NoModels,
    /// A model holds no vertex positions.
    NoVertices,
    /// The index count is not divisible by three, or an index addresses no
    /// vertex.
    InvalidFaces,
    /// A texture image could not be decoded into a pixel grid.
    ImageDecode,
}

impl LoadError {
    /// A short description of the failure, for error reporting.
    pub fn message(&self) -> (m: &'static str)
        ensures
            m@ == match self {
                LoadError::Io => "failed to read or parse the file"@,
                LoadError::NoModels => "the file contains no models"@,
                LoadError::NoVertices => "mesh has no vertices"@,
                LoadError::InvalidFaces => "face indices are not whole in-range triangles"@,
                LoadError::ImageDecode => "failed to decode the texture image"@,
            },
    {
        match self {
            LoadError::Io => "failed to read or parse the file",
            LoadError::NoModels => "the file contains no models",
            LoadError::NoVertices => "mesh has no vertices",
            LoadError::InvalidFaces => "face indices are not whole in-range triangles",
            LoadError::ImageDecode => "failed to decode the texture image",
        }
    }
}

/// The structural invariant of a loaded mesh: whole triangles only, and
/// every index addresses an existing vertex.
pub open spec fn valid_indices(vertex_count: int, indices: Seq<u32>) -> bool {
    &&& indices.len() % 3 == 0
    &&& forall|i: int| 0 <= i < indices.len() ==> (indices[i] as int) < vertex_count
}

/// Group a flat index list into faces, after checking the mesh's structural
/// invariant against the vertex count. Returns `Ok` exactly when there is at
/// least one vertex and the indices are whole in-range triangles; otherwise
/// the matching [`LoadError`] and no partial result.
pub fn faces_from_indices(vertex_count: usize, indices: &Vec<u32>) -> (r: Result<
    Vec<Face>,
    LoadError,
>)
    ensures
        match r {
            Ok(faces) => {
                &&& vertex_count > 0
                &&& valid_indices(vertex_count as int, indices@)
                &&& faces@.len() * 3 == indices@.len()
                &&& forall|j: int|
                    0 <= j < faces@.len() ==> faces@[j] == (Face {
                        a: indices@[3 * j],
                        b: indices@[3 * j + 1],
                        c: indices@[3 * j + 2],
                    })
            },
            Err(e) => {
                ||| (e == LoadError::NoVertices && vertex_count == 0)
                ||| (e == LoadError::InvalidFaces && vertex_count > 0 && !valid_indices(
                    vertex_count as int,
                    indices@,
                ))
            },
        },
{
    if vertex_count == 0 {
        return Err(LoadError::NoVertices);
    }
    if indices.len() % 3 != 0 {
        return Err(LoadError::InvalidFaces);
    }
    let count = indices.len() / 3;
    let mut faces: Vec<Face> = Vec::new();
    let mut j: usize = 0;
    while j < count
        invariant
            vertex_count > 0,
            indices@.len() <= usize::MAX,
            indices@.len() % 3 == 0,
            count == indices@.len() / 3,
            j <= count,
            faces@.len() == j,
            forall|i: int| 0 <= i < 3 * j ==> (indices@[i] as int) < vertex_count,
            forall|k: int|
                0 <= k < j ==> faces@[k] == (Face {
                    a: indices@[3 * k],
                    b: indices@[3 * k + 1],
                    c: indices@[3 * k + 2],
                }),
        decreases count - j,
    {
        proof {
            assert(indices@.len() == 3 * count);
        }
        let a = indices[3 * j];
        let b = indices[3 * j + 1];
        let c = indices[3 * j + 2];
        if (a as usize) >= vertex_count || (b as usize) >= vertex_count || (c as usize)
            >= vertex_count {
            return Err(LoadError::InvalidFaces);
        }
        faces.push(Face { a, b, c });
        j += 1;
    }
    Ok(faces)
}

} // verus!
