use planet_generation::direction::Direction;
use planet_generation::lattice::LatticeVec;
use planet_generation::mesh::{FaceMesh, GridPoint};
use planet_generation::planet_settings::{PlanetSettings, SettingsError};
use planet_generation::terrain_face::TerrainFace;

fn settings(resolution: u32) -> PlanetSettings {
    PlanetSettings::new(resolution, 2.0f32.to_bits())
}

fn mesh(up: Direction, resolution: u32) -> FaceMesh {
    TerrainFace::new(up).to_mesh(&settings(resolution)).unwrap()
}

fn directions() -> [Direction; 6] {
    [
        Direction::PosX,
        Direction::PosY,
        Direction::PosZ,
        Direction::NegX,
        Direction::NegY,
        Direction::NegZ,
    ]
}

#[test]
fn single_quad_has_the_documented_winding() {
    for up in directions() {
        assert_eq!(mesh(up, 2).indices, vec![0, 3, 2, 0, 1, 3]);
    }
}

#[test]
fn counts_follow_the_resolution() {
    for r in [2u32, 3, 4, 7, 16, 100] {
        let m = mesh(Direction::PosZ, r);
        assert_eq!(m.resolution, r);
        assert_eq!(m.cube_points.len() as u32, r * r);
        assert_eq!(m.uvs.len() as u32, r * r);
        assert_eq!(m.indices.len() as u32, 6 * (r - 1) * (r - 1));
        assert_eq!(m.indices.len() % 3, 0);
        assert!(m.indices.iter().all(|&i| i < r * r));
    }
}

#[test]
fn resolution_three_is_listed_row_by_row() {
    let m = mesh(Direction::PosY, 3);
    let uvs: Vec<(u32, u32)> = m.uvs.iter().map(|p| (p.x, p.y)).collect();
    assert_eq!(
        uvs,
        vec![(0, 0), (1, 0), (2, 0), (0, 1), (1, 1), (2, 1), (0, 2), (1, 2), (2, 2)]
    );
    assert_eq!(
        m.indices,
        vec![
            0, 4, 3, 0, 1, 4, // cell (0, 0)
            1, 5, 4, 1, 2, 5, // cell (1, 0)
            3, 7, 6, 3, 4, 7, // cell (0, 1)
            4, 8, 7, 4, 5, 8, // cell (1, 1)
        ]
    );
}

#[test]
fn every_triangle_is_counter_clockwise_in_the_grid() {
    let m = mesh(Direction::NegX, 6);
    for t in m.indices.chunks(3) {
        let p: Vec<(i64, i64)> =
            t.iter().map(|&i| (m.uvs[i as usize].x as i64, m.uvs[i as usize].y as i64)).collect();
        let area = (p[1].0 - p[0].0) * (p[2].1 - p[0].1) - (p[1].1 - p[0].1) * (p[2].0 - p[0].0);
        assert_eq!(area, 1);
    }
}

#[test]
fn every_cell_is_covered_by_two_triangles_sharing_the_diagonal() {
    let r = 5u32;
    let m = mesh(Direction::PosX, r);
    for y in 0..r - 1 {
        for x in 0..r - 1 {
            let k = (6 * (y * (r - 1) + x)) as usize;
            let i = x + y * r;
            assert_eq!(&m.indices[k..k + 6], &[i, i + r + 1, i + r, i, i + 1, i + r + 1]);
        }
    }
}

#[test]
fn cube_points_of_the_smallest_mesh() {
    let m = mesh(Direction::PosX, 2);
    assert_eq!(
        m.cube_points,
        vec![
            LatticeVec::new(1, 1, -1),
            LatticeVec::new(1, 1, 1),
            LatticeVec::new(1, -1, -1),
            LatticeVec::new(1, -1, 1),
        ]
    );
    let m = mesh(Direction::NegZ, 2);
    assert_eq!(
        m.cube_points,
        vec![
            LatticeVec::new(1, 1, -1),
            LatticeVec::new(1, -1, -1),
            LatticeVec::new(-1, 1, -1),
            LatticeVec::new(-1, -1, -1),
        ]
    );
}

#[test]
fn cube_points_lie_on_their_face() {
    let r = 9u32;
    let s = (r - 1) as i64;
    for up in directions() {
        let face = TerrainFace::new(up);
        let (u, a, b) = (face.local_up(), face.axis_a(), face.axis_b());
        let m = mesh(up, r);
        for (i, p) in m.cube_points.iter().enumerate() {
            let (x, y) = (m.uvs[i].x as i64, m.uvs[i].y as i64);
            assert_eq!(p.x * u.x + p.y * u.y + p.z * u.z, s);
            assert_eq!(p.x * a.x + p.y * a.y + p.z * a.z, 2 * x - s);
            assert_eq!(p.x * b.x + p.y * b.y + p.z * b.z, 2 * y - s);
            assert_eq!(p.x.abs().max(p.y.abs()).max(p.z.abs()), s);
        }
    }
}

#[test]
fn cube_points_agree_with_the_floating_point_formula() {
    let r = 11u32;
    for up in directions() {
        let face = TerrainFace::new(up);
        let (u, a, b) = (face.local_up(), face.axis_a(), face.axis_b());
        let m = mesh(up, r);
        for (i, p) in m.cube_points.iter().enumerate() {
            let px = m.uvs[i].x as f32 / (r - 1) as f32;
            let py = m.uvs[i].y as f32 / (r - 1) as f32;
            let f = |u: i64, a: i64, b: i64| {
                u as f32 + (px - 0.5) * 2.0 * a as f32 + (py - 0.5) * 2.0 * b as f32
            };
            let expected = [f(u.x, a.x, b.x), f(u.y, a.y, b.y), f(u.z, a.z, b.z)];
            let got = [
                p.x as f32 / (r - 1) as f32,
                p.y as f32 / (r - 1) as f32,
                p.z as f32 / (r - 1) as f32,
            ];
            for c in 0..3 {
                assert!((expected[c] - got[c]).abs() < 1e-6);
            }
        }
    }
}

#[test]
fn undisplaced_vertices_have_the_magnitude_of_the_radius() {
    let radius = 2.0f64;
    for up in directions() {
        for p in mesh(up, 17).cube_points {
            let (x, y, z) = (p.x as f64, p.y as f64, p.z as f64);
            let len = (x * x + y * y + z * z).sqrt();
            assert!(len > 0.0);
            let v = [x / len * radius, y / len * radius, z / len * radius];
            let magnitude = (v[0] * v[0] + v[1] * v[1] + v[2] * v[2]).sqrt();
            assert!((magnitude - radius).abs() < 1e-12);
        }
    }
}

#[test]
fn generating_twice_gives_identical_meshes() {
    let face = TerrainFace::new(Direction::NegY);
    let s = settings(13);
    assert_eq!(face.to_mesh(&s), face.to_mesh(&s));
    let bad = settings(1);
    assert_eq!(face.to_mesh(&bad), face.to_mesh(&bad));
}

#[test]
fn radius_and_layers_leave_the_mesh_unchanged() {
    let face = TerrainFace::new(Direction::PosZ);
    let small = PlanetSettings::new(8, 0.5f32.to_bits());
    let large = PlanetSettings::new(8, 1000.0f32.to_bits()).with_layer(
        planet_generation::planet_settings::NoiseSettings { use_first_layer_as_mask: true },
    );
    let (a, b) = (face.to_mesh(&small).unwrap(), face.to_mesh(&large).unwrap());
    assert_eq!(a.indices, b.indices);
    assert_eq!(a.uvs, b.uvs);
    assert_eq!(a.cube_points, b.cube_points);
}

#[test]
fn invalid_settings_give_no_mesh() {
    let face = TerrainFace::new(Direction::PosX);
    assert_eq!(face.to_mesh(&settings(0)), Err(SettingsError::ResolutionTooSmall));
    assert_eq!(face.to_mesh(&settings(1)), Err(SettingsError::ResolutionTooSmall));
    assert_eq!(face.to_mesh(&settings(65536)), Err(SettingsError::ResolutionTooLarge));
    assert_eq!(face.to_mesh(&settings(u32::MAX)), Err(SettingsError::ResolutionTooLarge));
    assert_eq!(
        face.to_mesh(&PlanetSettings::new(4, 0.0f32.to_bits())),
        Err(SettingsError::RadiusNotPositive)
    );
    assert_eq!(
        face.to_mesh(&PlanetSettings::new(1, (-1.0f32).to_bits())),
        Err(SettingsError::ResolutionTooSmall)
    );
}

#[test]
fn cube_point_is_defined_inside_the_grid_only() {
    let face = TerrainFace::new(Direction::PosY);
    assert_eq!(face.cube_point(5, 0, 0), Some(LatticeVec::new(-4, 4, 4)));
    assert_eq!(face.cube_point(5, 4, 0), Some(LatticeVec::new(4, 4, 4)));
    assert_eq!(face.cube_point(5, 2, 2), Some(LatticeVec::new(0, 4, 0)));
    assert_eq!(face.cube_point(5, 4, 4), Some(LatticeVec::new(4, 4, -4)));
    assert_eq!(face.cube_point(5, 5, 0), None);
    assert_eq!(face.cube_point(5, 0, 5), None);
    assert_eq!(face.cube_point(1, 0, 0), None);
    assert_eq!(face.cube_point(65536, 0, 0), None);
    assert_eq!(
        face.cube_point(65535, 65534, 65534),
        Some(LatticeVec::new(65534, 65534, -65534))
    );
}

#[test]
fn uvs_are_grid_points() {
    let m = mesh(Direction::PosX, 4);
    assert_eq!(m.uvs[0], GridPoint { x: 0, y: 0 });
    assert_eq!(m.uvs[3], GridPoint { x: 3, y: 0 });
    assert_eq!(m.uvs[4], GridPoint { x: 0, y: 1 });
    assert_eq!(m.uvs[15], GridPoint { x: 3, y: 3 });
    assert!(m.uvs.iter().all(|p| p.x <= 3 && p.y <= 3));
}
