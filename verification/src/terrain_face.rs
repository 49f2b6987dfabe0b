//! One face of the cube: its orthonormal frame.

use vstd::prelude::*;
use crate::direction::Direction;
use crate::lattice::{lemma_sign_products, LatticeVec};

verus! {

/// First in-plane axis of the face whose outward normal is `up`: the
/// components of `up` rotated one place, `(up.y, up.z, up.x)`.
pub open spec fn axis_a_of(up: Direction) -> LatticeVec {
    let u = up.spec_unit();
    LatticeVec { x: u.y, y: u.z, z: u.x }
}

/// Second in-plane axis of the face: `up × axis_a`.
pub open spec fn axis_b_of(up: Direction) -> LatticeVec {
    let u = up.spec_unit();
    let a = axis_a_of(up);
    LatticeVec {
        x: (u.y * a.z - u.z * a.y) as i64,
        y: (u.z * a.x - u.x * a.z) as i64,
        z: (u.x * a.y - u.y * a.x) as i64,
    }
}

/// One face of the cube, identified by its outward normal, together with the
/// two axes that span it.
#[derive(Clone, Copy, Debug)]
pub struct TerrainFace {
    local_up: Direction,
    axis_a: LatticeVec,
    axis_b: LatticeVec,
}

impl TerrainFace {
    #[verifier::type_invariant]
    spec fn frame_is_derived(self) -> bool {
        &&& self.axis_a == axis_a_of(self.local_up)
        &&& self.axis_b == axis_b_of(self.local_up)
    }

    /// The outward normal that identifies the face.
    pub closed spec fn up(self) -> Direction {
        self.local_up
    }

    /// The three vectors that the face holds: outward normal, first and
    /// second in-plane axis.
    pub closed spec fn frame(self) -> (LatticeVec, LatticeVec, LatticeVec) {
        (self.local_up.spec_unit(), self.axis_a, self.axis_b)
    }

    /// Builds the face with outward normal `local_up`, deriving both in-plane
    /// axes from it: `axis_a = (up.y, up.z, up.x)` and `axis_b = up × axis_a`.
    pub fn new(local_up: Direction) -> (face: TerrainFace)
        ensures
            face.up() == local_up,
            face.frame() == (local_up.spec_unit(), axis_a_of(local_up), axis_b_of(local_up)),
    {
        proof {
            lemma_axes_are_directions(local_up);
            crate::direction::lemma_unit_length(local_up);
        }
        let up = local_up.unit();
        let axis_a = up.rotated();
        let axis_b = up.cross(axis_a);
        TerrainFace { local_up, axis_a, axis_b }
    }

    /// The outward normal, as a direction.
    pub fn direction(&self) -> (d: Direction)
        ensures
            d == self.up(),
    {
        self.local_up
    }

    /// The outward normal, as a unit vector.
    pub fn local_up(&self) -> (v: LatticeVec)
        ensures
            v == self.up().spec_unit(),
            v == self.frame().0,
    {
        self.local_up.unit()
    }

    /// First in-plane axis.
    pub fn axis_a(&self) -> (v: LatticeVec)
        ensures
            v == axis_a_of(self.up()),
            v == self.frame().1,
    {
        proof {
            use_type_invariant(self);
        }
        self.axis_a
    }

    /// Second in-plane axis.
    pub fn axis_b(&self) -> (v: LatticeVec)
        ensures
            v == axis_b_of(self.up()),
            v == self.frame().2,
    {
        proof {
            use_type_invariant(self);
        }
        self.axis_b
    }
}

/// Both in-plane axes of every face are themselves axis directions: `axis_a`
/// is the normal's cyclic successor (`X → Z → Y → X`, signs kept) and `axis_b`
/// the one that remains, with the sign that makes the frame right-handed.
pub proof fn lemma_axes_are_directions(up: Direction)
    ensures
        axis_a_of(up) == (match up {
            Direction::PosX => Direction::PosZ,
            Direction::PosY => Direction::PosX,
            Direction::PosZ => Direction::PosY,
            Direction::NegX => Direction::NegZ,
            Direction::NegY => Direction::NegX,
            Direction::NegZ => Direction::NegY,
        }).spec_unit(),
        axis_b_of(up) == (match up {
            Direction::PosX | Direction::NegX => Direction::NegY,
            Direction::PosY | Direction::NegY => Direction::NegZ,
            Direction::PosZ | Direction::NegZ => Direction::NegX,
        }).spec_unit(),
        up.spec_unit().is_sign_vector(),
        axis_a_of(up).is_sign_vector(),
        axis_b_of(up).is_sign_vector(),
{
    lemma_sign_products(up.spec_unit(), axis_a_of(up));
    match up {
        Direction::PosX => {},
        Direction::PosY => {},
        Direction::PosZ => {},
        Direction::NegX => {},
        Direction::NegY => {},
        Direction::NegZ => {},
    }
}

/// The frame of every face is orthonormal: the three vectors have length one
/// and are pairwise perpendicular.
pub proof fn lemma_frame_orthonormal(up: Direction)
    ensures
        up.spec_unit().norm_squared() == 1,
        axis_a_of(up).norm_squared() == 1,
        axis_b_of(up).norm_squared() == 1,
        up.spec_unit().dot(axis_a_of(up)) == 0,
        up.spec_unit().dot(axis_b_of(up)) == 0,
        axis_a_of(up).dot(axis_b_of(up)) == 0,
{
    let (u, a, b) = (up.spec_unit(), axis_a_of(up), axis_b_of(up));
    lemma_axes_are_directions(up);
    lemma_sign_products(u, u);
    lemma_sign_products(a, a);
    lemma_sign_products(b, b);
    lemma_sign_products(u, a);
    lemma_sign_products(u, b);
    lemma_sign_products(a, b);
    match up {
        Direction::PosX => {},
        Direction::PosY => {},
        Direction::PosZ => {},
        Direction::NegX => {},
        Direction::NegY => {},
        Direction::NegZ => {},
    }
}

/// The frame of every face is right-handed: `axis_a × axis_b` is the
/// outward normal, on the negative faces as on the positive ones.
pub proof fn lemma_frame_orientation(up: Direction)
    ensures
        up.spec_unit().has_components(axis_a_of(up).cross_components(axis_b_of(up))),
{
    lemma_axes_are_directions(up);
    lemma_sign_products(axis_a_of(up), axis_b_of(up));
    match up {
        Direction::PosX => {},
        Direction::PosY => {},
        Direction::PosZ => {},
        Direction::NegX => {},
        Direction::NegY => {},
        Direction::NegZ => {},
    }
}

} // verus!
