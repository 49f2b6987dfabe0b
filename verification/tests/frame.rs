use planet_generation::direction::{Direction, FACE_COUNT};
use planet_generation::lattice::LatticeVec;
use planet_generation::terrain_face::TerrainFace;

fn dot(a: LatticeVec, b: LatticeVec) -> i64 {
    a.x * b.x + a.y * b.y + a.z * b.z
}

#[test]
fn canonical_order_of_directions() {
    let all = Direction::all();
    assert_eq!(all.len(), FACE_COUNT);
    assert_eq!(
        all,
        [
            Direction::PosX,
            Direction::PosY,
            Direction::PosZ,
            Direction::NegX,
            Direction::NegY,
            Direction::NegZ,
        ]
    );
    for (i, d) in all.iter().enumerate() {
        assert_eq!(d.index(), i);
        assert_eq!(Direction::from_index(i), Some(*d));
    }
    assert_eq!(Direction::from_index(6), None);
    assert_eq!(Direction::from_index(usize::MAX), None);
}

#[test]
fn unit_vectors() {
    assert_eq!(Direction::PosX.unit(), LatticeVec::new(1, 0, 0));
    assert_eq!(Direction::PosY.unit(), LatticeVec::new(0, 1, 0));
    assert_eq!(Direction::PosZ.unit(), LatticeVec::new(0, 0, 1));
    assert_eq!(Direction::NegX.unit(), LatticeVec::new(-1, 0, 0));
    assert_eq!(Direction::NegY.unit(), LatticeVec::new(0, -1, 0));
    assert_eq!(Direction::NegZ.unit(), LatticeVec::new(0, 0, -1));
}

#[test]
fn opposite_negates_the_unit_vector() {
    for d in Direction::all() {
        let (u, o) = (d.unit(), d.opposite().unit());
        assert_eq!((o.x, o.y, o.z), (-u.x, -u.y, -u.z));
        assert_eq!(d.opposite().opposite(), d);
    }
}

#[test]
fn frames_of_the_six_faces() {
    let expected = [
        (Direction::PosX, (0, 0, 1), (0, -1, 0)),
        (Direction::PosY, (1, 0, 0), (0, 0, -1)),
        (Direction::PosZ, (0, 1, 0), (-1, 0, 0)),
        (Direction::NegX, (0, 0, -1), (0, -1, 0)),
        (Direction::NegY, (-1, 0, 0), (0, 0, -1)),
        (Direction::NegZ, (0, -1, 0), (-1, 0, 0)),
    ];
    for (up, a, b) in expected {
        let face = TerrainFace::new(up);
        assert_eq!(face.direction(), up);
        assert_eq!(face.local_up(), up.unit());
        assert_eq!(face.axis_a(), LatticeVec::new(a.0, a.1, a.2));
        assert_eq!(face.axis_b(), LatticeVec::new(b.0, b.1, b.2));
    }
}

#[test]
fn frames_are_orthonormal_and_right_handed() {
    for up in Direction::all() {
        let face = TerrainFace::new(up);
        let (u, a, b) = (face.local_up(), face.axis_a(), face.axis_b());
        assert_eq!(a, u.rotated());
        assert_eq!(b, u.cross(a));
        assert_eq!((dot(u, u), dot(a, a), dot(b, b)), (1, 1, 1));
        assert_eq!((dot(u, a), dot(u, b), dot(a, b)), (0, 0, 0));
        assert_eq!(a.cross(b), u);
    }
}

#[test]
fn cross_product_of_general_vectors() {
    let v = LatticeVec::new(2, -3, 5);
    let w = LatticeVec::new(-7, 11, 13);
    assert_eq!(v.cross(w), LatticeVec::new(-94, -61, 1));
    assert_eq!(w.cross(v), LatticeVec::new(94, 61, -1));
    assert_eq!(v.cross(v), LatticeVec::new(0, 0, 0));
    let limit = planet_generation::lattice::COMPONENT_LIMIT;
    let big = LatticeVec::new(limit, -limit, limit);
    assert_eq!(
        big.cross(LatticeVec::new(-limit, limit, limit)),
        LatticeVec::new(-2 * limit * limit, -2 * limit * limit, 0)
    );
    assert_eq!(LatticeVec::new(1, 2, 3).rotated(), LatticeVec::new(2, 3, 1));
}
