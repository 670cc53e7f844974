//! The mesh: positions, and indices that pick three of them per triangle.
//!
//! A coordinate is kept as the bit pattern of an IEEE 754 single-precision
//! number, so that a mesh is made of integers alone and its bytes in a vertex
//! buffer are exactly those of the numbers it stands for.

use crate::words::{stored_bytes, words_to_bytes};
use vstd::prelude::*;

verus! {

/// Coordinates per position.
pub const POSITION_COMPONENTS: u32 = 3;

/// Bytes from one position to the next in a vertex buffer.
pub const POSITION_STRIDE: u64 = 12;

/// The bit pattern of `0.0`.
pub const ZERO_BITS: u32 = 0x0000_0000;

/// The bit pattern of `0.5`.
pub const HALF_BITS: u32 = 0x3F00_0000;

/// The bit pattern of `-0.5`.
pub const MINUS_HALF_BITS: u32 = 0xBF00_0000;

/// A point in space. Each field is the bit pattern of a single-precision
/// coordinate.
#[derive(Debug, Clone, Copy, PartialEq, Eq, Structural)]
pub struct Position {
    pub x: u32,
    pub y: u32,
    pub z: u32,
}

impl Position {
    /// Coordinate `k` of the position: `x`, `y`, then `z`.
    pub open spec fn component(self, k: int) -> u32
        recommends
            0 <= k < 3,
    {
        if k == 0 {
            self.x
        } else if k == 1 {
            self.y
        } else {
            self.z
        }
    }
}

/// The coordinates of a run of positions, one after another.
pub open spec fn position_words(positions: Seq<Position>) -> Seq<u32> {
    Seq::new(3 * positions.len(), |i: int| positions[i / 3].component(i % 3))
}

/// Why positions and indices do not make a mesh.
#[derive(Debug, Clone, Copy, PartialEq, Eq, Structural)]
pub enum MeshError {
    /// There are more indices than one draw can count.
    TooManyIndices,
    /// The index at place `at` names no position.
    IndexOutOfRange { at: usize },
}

/// True when every index names one of `vertex_count` positions.
pub open spec fn indices_in_range(indices: Seq<u32>, vertex_count: nat) -> bool {
    forall|i: int| 0 <= i < indices.len() ==> (#[trigger] indices[i]) < vertex_count
}

/// The first place in `indices` whose index names none of `vertex_count`
/// positions, if `at` is that place.
pub open spec fn first_stray_index(indices: Seq<u32>, vertex_count: nat, at: int) -> bool {
    &&& 0 <= at < indices.len()
    &&& indices[at] >= vertex_count
    &&& indices_in_range(indices.take(at), vertex_count)
}

/// Positions and the indices that draw them as a list of triangles, three
/// indices to a triangle, front faces counter-clockwise.
#[derive(Debug, PartialEq, Eq)]
pub struct Mesh {
    positions: Vec<Position>,
    indices: Vec<u32>,
}

/// A mesh as a value of mathematics.
pub struct MeshView {
    /// The positions, in buffer order.
    pub positions: Seq<Position>,
    /// The indices, in draw order.
    pub indices: Seq<u32>,
}

impl MeshView {
    /// Every index names a position, and one draw can count the indices.
    pub open spec fn wf(self) -> bool {
        &&& self.indices.len() <= u32::MAX
        &&& indices_in_range(self.indices, self.positions.len())
    }
}

impl View for Mesh {
    type V = MeshView;

    closed spec fn view(&self) -> MeshView {
        MeshView { positions: self.positions@, indices: self.indices@ }
    }
}

/// The positions of the built-in triangle: the top, then the lower left, then
/// the lower right corner.
pub open spec fn triangle_positions() -> Seq<Position> {
    seq![
        Position { x: ZERO_BITS, y: HALF_BITS, z: ZERO_BITS },
        Position { x: MINUS_HALF_BITS, y: MINUS_HALF_BITS, z: ZERO_BITS },
        Position { x: HALF_BITS, y: MINUS_HALF_BITS, z: ZERO_BITS },
    ]
}

impl Mesh {
    #[verifier::type_invariant]
    closed spec fn inv(&self) -> bool {
        self@.wf()
    }

    /// Makes a mesh of the given parts, or says what is wrong with them. The
    /// number of indices is judged first, then the indices from the first on.
    pub fn new(positions: Vec<Position>, indices: Vec<u32>) -> (made: Result<Mesh, MeshError>)
        ensures
            match made {
                Ok(mesh) => {
                    &&& mesh@ == (MeshView { positions: positions@, indices: indices@ })
                    &&& mesh@.wf()
                },
                Err(MeshError::TooManyIndices) => indices@.len() > u32::MAX,
                Err(MeshError::IndexOutOfRange { at }) => {
                    &&& indices@.len() <= u32::MAX
                    &&& first_stray_index(indices@, positions@.len(), at as int)
                },
            },
    {
        if indices.len() > 0xFFFF_FFFF {
            return Err(MeshError::TooManyIndices);
        }
        let count: usize = positions.len();
        let mut at: usize = 0;
        while at < indices.len()
            invariant
                at <= indices.len() <= u32::MAX,
                count == positions.len(),
                indices_in_range(indices@.take(at as int), count as nat),
            decreases indices.len() - at,
        {
            let index: u32 = indices[at];
            if index as usize >= count {
                return Err(MeshError::IndexOutOfRange { at });
            }
            assert(indices@.take(at + 1) == indices@.take(at as int).push(indices@[at as int]));
            at = at + 1;
        }
        assert(indices@.take(at as int) == indices@);
        Ok(Mesh { positions, indices })
    }

    /// The built-in mesh: one triangle, its corners named counter-clockwise.
    pub fn triangle() -> (mesh: Mesh)
        ensures
            mesh@ == (MeshView { positions: triangle_positions(), indices: seq![0u32, 1u32, 2u32] }),
            mesh@.wf(),
    {
        let positions: Vec<Position> = vec![
            Position { x: ZERO_BITS, y: HALF_BITS, z: ZERO_BITS },
            Position { x: MINUS_HALF_BITS, y: MINUS_HALF_BITS, z: ZERO_BITS },
            Position { x: HALF_BITS, y: MINUS_HALF_BITS, z: ZERO_BITS },
        ];
        let indices: Vec<u32> = vec![0u32, 1u32, 2u32];
        assert(positions@ =~= triangle_positions());
        Mesh { positions, indices }
    }

    /// How many positions the mesh has.
    pub fn vertex_count(&self) -> (count: usize)
        ensures
            count == self@.positions.len(),
    {
        self.positions.len()
    }

    /// How many indices one draw of the mesh reads.
    pub fn index_count(&self) -> (count: u32)
        ensures
            count == self@.indices.len(),
    {
        proof {
            use_type_invariant(self);
        }
        self.indices.len() as u32
    }

    /// The coordinates of all positions, one after another.
    pub fn coordinates(&self) -> (words: Vec<u32>)
        ensures
            words@ == position_words(self@.positions),
    {
        let mut words: Vec<u32> = Vec::new();
        let mut done: usize = 0;
        while done < self.positions.len()
            invariant
                done <= self.positions.len(),
                words@ == position_words(self.positions@.take(done as int)),
            decreases self.positions.len() - done,
        {
            let position: Position = self.positions[done];
            let ghost before = words@;
            words.push(position.x);
            words.push(position.y);
            words.push(position.z);
            proof {
                let prev = self.positions@.take(done as int);
                let next = self.positions@.take(done + 1);
                assert forall|i: int| 0 <= i < 3 * done implies words@[i] == next[i
                    / 3].component(i % 3) by {
                    assert(before[i] == prev[i / 3].component(i % 3));
                }
                assert(words@ =~= position_words(next));
            }
            done = done + 1;
        }
        assert(self.positions@.take(done as int) == self.positions@);
        words
    }

    /// The contents of the vertex buffer: every coordinate as this machine
    /// stores it, twelve bytes to a position.
    pub fn vertex_bytes(&self) -> (bytes: Vec<u8>)
        ensures
            bytes@ == stored_bytes(position_words(self@.positions)),
            bytes@.len() == POSITION_STRIDE * self@.positions.len(),
    {
        let words = self.coordinates();
        words_to_bytes(words.as_slice())
    }

    /// The contents of the index buffer: every index as this machine stores
    /// it, four bytes to an index.
    pub fn index_bytes(&self) -> (bytes: Vec<u8>)
        ensures
            bytes@ == stored_bytes(self@.indices),
            bytes@.len() == 4 * self@.indices.len(),
    {
        words_to_bytes(self.indices.as_slice())
    }
}

} // verus!
