//! The six axis-aligned directions of a cube, in their canonical order.

use vstd::prelude::*;
use crate::lattice::LatticeVec;

verus! {

/// One of the six outward normals of an axis-aligned cube.
#[derive(Clone, Copy, Debug, PartialEq, Eq, Structural)]
pub enum Direction {
    PosX,
    PosY,
    PosZ,
    NegX,
    NegY,
    NegZ,
}

/// Number of faces of a cube.
pub const FACE_COUNT: usize = 6;

impl Direction {
    /// The unit vector of the direction.
    pub open spec fn spec_unit(self) -> LatticeVec {
        match self {
            Direction::PosX => LatticeVec { x: 1, y: 0, z: 0 },
            Direction::PosY => LatticeVec { x: 0, y: 1, z: 0 },
            Direction::PosZ => LatticeVec { x: 0, y: 0, z: 1 },
            Direction::NegX => LatticeVec { x: -1i64, y: 0, z: 0 },
            Direction::NegY => LatticeVec { x: 0, y: -1i64, z: 0 },
            Direction::NegZ => LatticeVec { x: 0, y: 0, z: -1i64 },
        }
    }

    /// Place of the direction in the canonical order `+X, +Y, +Z, -X, -Y, -Z`.
    pub open spec fn spec_index(self) -> int {
        match self {
            Direction::PosX => 0,
            Direction::PosY => 1,
            Direction::PosZ => 2,
            Direction::NegX => 3,
            Direction::NegY => 4,
            Direction::NegZ => 5,
        }
    }

    /// The direction at a place of the canonical order.
    pub open spec fn spec_from_index(i: int) -> Direction {
        if i == 0 {
            Direction::PosX
        } else if i == 1 {
            Direction::PosY
        } else if i == 2 {
            Direction::PosZ
        } else if i == 3 {
            Direction::NegX
        } else if i == 4 {
            Direction::NegY
        } else {
            Direction::NegZ
        }
    }

    /// The six directions in canonical order.
    pub open spec fn spec_all() -> Seq<Direction> {
        Seq::new(6, |i: int| Direction::spec_from_index(i))
    }

    #[verifier::when_used_as_spec(spec_unit)]
    pub fn unit(self) -> (v: LatticeVec)
        ensures
            v == self.spec_unit(),
    {
        match self {
            Direction::PosX => LatticeVec { x: 1, y: 0, z: 0 },
            Direction::PosY => LatticeVec { x: 0, y: 1, z: 0 },
            Direction::PosZ => LatticeVec { x: 0, y: 0, z: 1 },
            Direction::NegX => LatticeVec { x: -1i64, y: 0, z: 0 },
            Direction::NegY => LatticeVec { x: 0, y: -1i64, z: 0 },
            Direction::NegZ => LatticeVec { x: 0, y: 0, z: -1i64 },
        }
    }

    pub fn index(self) -> (i: usize)
        ensures
            i == self.spec_index(),
            i < FACE_COUNT,
    {
        match self {
            Direction::PosX => 0,
            Direction::PosY => 1,
            Direction::PosZ => 2,
            Direction::NegX => 3,
            Direction::NegY => 4,
            Direction::NegZ => 5,
        }
    }

    /// The direction at place `i` of the canonical order, if `i < 6`.
    pub fn from_index(i: usize) -> (d: Option<Direction>)
        ensures
            i < FACE_COUNT ==> d == Some(Direction::spec_from_index(i as int)),
            i >= FACE_COUNT ==> d is None,
    {
        if i == 0 {
            Some(Direction::PosX)
        } else if i == 1 {
            Some(Direction::PosY)
        } else if i == 2 {
            Some(Direction::PosZ)
        } else if i == 3 {
            Some(Direction::NegX)
        } else if i == 4 {
            Some(Direction::NegY)
        } else if i == 5 {
            Some(Direction::NegZ)
        } else {
            None
        }
    }

    /// The six directions in canonical order.
    pub fn all() -> (dirs: [Direction; 6])
        ensures
            dirs@ == Direction::spec_all(),
    {
        let dirs = [
            Direction::PosX,
            Direction::PosY,
            Direction::PosZ,
            Direction::NegX,
            Direction::NegY,
            Direction::NegZ,
        ];
        assert(dirs@ =~= Direction::spec_all());
        dirs
    }

    /// The direction pointing the other way.
    pub fn opposite(self) -> (d: Direction)
        ensures
            d.spec_unit().x == -self.spec_unit().x,
            d.spec_unit().y == -self.spec_unit().y,
            d.spec_unit().z == -self.spec_unit().z,
    {
        match self {
            Direction::PosX => Direction::NegX,
            Direction::PosY => Direction::NegY,
            Direction::PosZ => Direction::NegZ,
            Direction::NegX => Direction::PosX,
            Direction::NegY => Direction::PosY,
            Direction::NegZ => Direction::PosZ,
        }
    }
}

/// The canonical order names every direction exactly once: `index` and
/// `from_index` are inverse to each other.
pub proof fn lemma_index_bijection(d: Direction, i: int)
    ensures
        0 <= d.spec_index() < 6,
        Direction::spec_from_index(d.spec_index()) == d,
        0 <= i < 6 ==> Direction::spec_from_index(i).spec_index() == i,
{
}

/// Every direction is a unit vector along one axis.
pub proof fn lemma_unit_length(d: Direction)
    ensures
        d.spec_unit().norm_squared() == 1,
        d.spec_unit().bounded(),
{
    match d {
        Direction::PosX => {},
        Direction::PosY => {},
        Direction::PosZ => {},
        Direction::NegX => {},
        Direction::NegY => {},
        Direction::NegZ => {},
    }
}

} // verus!
