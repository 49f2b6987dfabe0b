use planet_generation::controls::{check, on_state_change, PlanetState, PlanetVisibility, Visibility};
use planet_generation::direction::Direction;
use planet_generation::planet_generation::build;
use planet_generation::planet_settings::{NoiseSettings, PlanetSettings, SettingsError};
use planet_generation::terrain_face::TerrainFace;

#[test]
fn planet_has_six_faces_in_canonical_order() {
    let settings = PlanetSettings::new(5, 2.0f32.to_bits());
    let faces = build(&settings).unwrap();
    assert_eq!(faces.len(), 6);
    for (i, up) in Direction::all().iter().enumerate() {
        assert_eq!(faces[i], TerrainFace::new(*up).to_mesh(&settings).unwrap());
        let u = up.unit();
        for p in &faces[i].cube_points {
            assert_eq!(p.x * u.x + p.y * u.y + p.z * u.z, 4);
        }
    }
}

#[test]
fn faces_share_topology_but_not_points() {
    let faces = build(&PlanetSettings::new(4, 1.0f32.to_bits())).unwrap();
    for face in &faces[1..] {
        assert_eq!(face.indices, faces[0].indices);
        assert_eq!(face.uvs, faces[0].uvs);
        assert_ne!(face.cube_points, faces[0].cube_points);
    }
}

#[test]
fn faces_meet_at_the_edges_of_the_cube() {
    let r = 6u32;
    let faces = build(&PlanetSettings::new(r, 1.0f32.to_bits())).unwrap();
    let mut points: Vec<(i64, i64, i64)> = faces
        .iter()
        .flat_map(|f| f.cube_points.iter().map(|p| (p.x, p.y, p.z)))
        .collect();
    points.sort();
    points.dedup();
    let n = r as usize;
    assert_eq!(points.len(), n * n * n - (n - 2) * (n - 2) * (n - 2));
}

#[test]
fn rebuild_reproduces_the_planet() {
    let settings = PlanetSettings::new(9, 2.0f32.to_bits())
        .with_layer(NoiseSettings { use_first_layer_as_mask: false })
        .with_layer(NoiseSettings { use_first_layer_as_mask: true });
    assert_eq!(build(&settings), build(&settings));
}

#[test]
fn invalid_settings_build_nothing() {
    assert_eq!(
        build(&PlanetSettings::new(1, 2.0f32.to_bits())),
        Err(SettingsError::ResolutionTooSmall)
    );
    assert_eq!(
        build(&PlanetSettings::new(100_000, 2.0f32.to_bits())),
        Err(SettingsError::ResolutionTooLarge)
    );
    assert_eq!(
        build(&PlanetSettings::new(10, (-2.0f32).to_bits())),
        Err(SettingsError::RadiusNotPositive)
    );
}

#[test]
fn overlay_is_hidden_at_first() {
    let state = PlanetState::default();
    assert!(!state.geothermal_overlay);
    assert_eq!(
        on_state_change(state.geothermal_overlay),
        PlanetVisibility { planet: Visibility::Inherited, geothermal: Visibility::Hidden }
    );
}

#[test]
fn pressing_the_toggle_flips_the_overlay() {
    let mut state = PlanetState::default();
    assert_eq!(check(&mut state, false), None);
    assert!(!state.geothermal_overlay);
    assert_eq!(check(&mut state, true), Some(true));
    assert!(state.geothermal_overlay);
    assert_eq!(check(&mut state, false), None);
    assert!(state.geothermal_overlay);
    assert_eq!(check(&mut state, true), Some(false));
    assert!(!state.geothermal_overlay);
}

#[test]
fn exactly_one_mesh_set_is_visible() {
    assert_eq!(
        on_state_change(true),
        PlanetVisibility { planet: Visibility::Hidden, geothermal: Visibility::Inherited }
    );
    assert_eq!(
        on_state_change(false),
        PlanetVisibility { planet: Visibility::Inherited, geothermal: Visibility::Hidden }
    );
    for flag in [false, true] {
        let v = on_state_change(flag);
        assert_ne!(v.planet, v.geothermal);
    }
}
