//! Integer vectors in three dimensions.

use vstd::prelude::*;

verus! {

/// A point or direction of the integer lattice.
#[derive(Clone, Copy, Debug, PartialEq, Eq, Structural)]
pub struct LatticeVec {
    pub x: i64,
    pub y: i64,
    pub z: i64,
}

/// Largest absolute value of a component for which every product and sum
/// taken by the operations of this module stays inside `i64`.
pub const COMPONENT_LIMIT: i64 = 0x4000_0000;

impl LatticeVec {
    /// All three components lie in `[-COMPONENT_LIMIT, COMPONENT_LIMIT]`.
    pub open spec fn bounded(self) -> bool {
        &&& -COMPONENT_LIMIT <= self.x <= COMPONENT_LIMIT
        &&& -COMPONENT_LIMIT <= self.y <= COMPONENT_LIMIT
        &&& -COMPONENT_LIMIT <= self.z <= COMPONENT_LIMIT
    }

    /// All three components lie in `{-1, 0, 1}`.
    pub open spec fn is_sign_vector(self) -> bool {
        &&& -1 <= self.x <= 1
        &&& -1 <= self.y <= 1
        &&& -1 <= self.z <= 1
    }

    /// Scalar product, over the mathematical integers.
    pub open spec fn dot(self, other: LatticeVec) -> int {
        self.x * other.x + self.y * other.y + self.z * other.z
    }

    /// The three components of the vector product, over the mathematical integers.
    pub open spec fn cross_components(self, other: LatticeVec) -> (int, int, int) {
        (
            self.y * other.z - self.z * other.y,
            self.z * other.x - self.x * other.z,
            self.x * other.y - self.y * other.x,
        )
    }

    /// `self` has exactly the given mathematical components.
    pub open spec fn has_components(self, c: (int, int, int)) -> bool {
        self.x == c.0 && self.y == c.1 && self.z == c.2
    }

    /// Squared Euclidean length.
    pub open spec fn norm_squared(self) -> int {
        self.dot(self)
    }

    pub fn new(x: i64, y: i64, z: i64) -> (v: LatticeVec)
        ensures
            v == (LatticeVec { x, y, z }),
    {
        LatticeVec { x, y, z }
    }

    /// The components rotated one place: `(y, z, x)`.
    pub fn rotated(self) -> (v: LatticeVec)
        ensures
            v == (LatticeVec { x: self.y, y: self.z, z: self.x }),
    {
        LatticeVec { x: self.y, y: self.z, z: self.x }
    }

    /// Vector product `self × other`.
    pub fn cross(self, other: LatticeVec) -> (v: LatticeVec)
        requires
            self.bounded(),
            other.bounded(),
        ensures
            v.has_components(self.cross_components(other)),
    {
        proof {
            lemma_product_bound(self.y as int, other.z as int);
            lemma_product_bound(self.z as int, other.y as int);
            lemma_product_bound(self.z as int, other.x as int);
            lemma_product_bound(self.x as int, other.z as int);
            lemma_product_bound(self.x as int, other.y as int);
            lemma_product_bound(self.y as int, other.x as int);
        }
        LatticeVec {
            x: self.y * other.z - self.z * other.y,
            y: self.z * other.x - self.x * other.z,
            z: self.x * other.y - self.y * other.x,
        }
    }
}

/// The product of two bounded components is bounded by the square of the limit.
pub proof fn lemma_product_bound(a: int, b: int)
    requires
        -COMPONENT_LIMIT <= a <= COMPONENT_LIMIT,
        -COMPONENT_LIMIT <= b <= COMPONENT_LIMIT,
    ensures
        -0x1000_0000_0000_0000 <= a * b <= 0x1000_0000_0000_0000,
{
    assert(-0x1000_0000_0000_0000 <= a * b <= 0x1000_0000_0000_0000) by (nonlinear_arith)
        requires
            -0x4000_0000 <= a <= 0x4000_0000,
            -0x4000_0000 <= b <= 0x4000_0000,
    ;
}

/// Products of two numbers from `{-1, 0, 1}`.
pub proof fn lemma_sign_product(a: int, b: int)
    requires
        -1 <= a <= 1,
        -1 <= b <= 1,
    ensures
        a * b == sign_product(a, b),
{
    assert(a == 0 ==> a * b == 0) by (nonlinear_arith);
    assert(a == 1 ==> a * b == b) by (nonlinear_arith);
    assert(a == -1 ==> a * b == -b) by (nonlinear_arith);
}

/// All nine products of a component of `v` with a component of `w`, for two
/// vectors whose components lie in `{-1, 0, 1}`.
pub proof fn lemma_sign_products(v: LatticeVec, w: LatticeVec)
    requires
        v.is_sign_vector(),
        w.is_sign_vector(),
    ensures
        v.x * w.x == sign_product(v.x as int, w.x as int),
        v.x * w.y == sign_product(v.x as int, w.y as int),
        v.x * w.z == sign_product(v.x as int, w.z as int),
        v.y * w.x == sign_product(v.y as int, w.x as int),
        v.y * w.y == sign_product(v.y as int, w.y as int),
        v.y * w.z == sign_product(v.y as int, w.z as int),
        v.z * w.x == sign_product(v.z as int, w.x as int),
        v.z * w.y == sign_product(v.z as int, w.y as int),
        v.z * w.z == sign_product(v.z as int, w.z as int),
{
    lemma_sign_product(v.x as int, w.x as int);
    lemma_sign_product(v.x as int, w.y as int);
    lemma_sign_product(v.x as int, w.z as int);
    lemma_sign_product(v.y as int, w.x as int);
    lemma_sign_product(v.y as int, w.y as int);
    lemma_sign_product(v.y as int, w.z as int);
    lemma_sign_product(v.z as int, w.x as int);
    lemma_sign_product(v.z as int, w.y as int);
    lemma_sign_product(v.z as int, w.z as int);
}

/// Multiplying by a number from `{-1, 0, 1}` keeps, clears or negates.
pub proof fn lemma_scale_by_sign(s: int, t: int)
    requires
        -1 <= t <= 1,
    ensures
        s * t == (if t == 0 {
            0
        } else if t == 1 {
            s
        } else {
            -s
        }),
{
    assert(t == 0 ==> s * t == 0) by (nonlinear_arith);
    assert(t == 1 ==> s * t == s) by (nonlinear_arith);
    assert(t == -1 ==> s * t == -s) by (nonlinear_arith);
}

/// The product of two numbers from `{-1, 0, 1}`, written without multiplication.
pub open spec fn sign_product(a: int, b: int) -> int {
    if a == 0 || b == 0 {
        0
    } else if a == b {
        1
    } else {
        -1
    }
}

} // verus!
