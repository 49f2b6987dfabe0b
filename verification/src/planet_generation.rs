//! The whole planet: six face meshes in canonical order.

use vstd::prelude::*;
use crate::direction::{Direction, FACE_COUNT};
use crate::mesh::{face_mesh_of, FaceMesh};
use crate::planet_settings::{PlanetSettings, SettingsError};
use crate::terrain_face::TerrainFace;

verus! {

/// `faces` is the planet of resolution `r`: one mesh per direction, the mesh
/// at place `i` being that of the `i`-th direction of the canonical order
/// `+X, +Y, +Z, -X, -Y, -Z`.
pub open spec fn is_planet(faces: Seq<FaceMesh>, r: int) -> bool {
    &&& faces.len() == FACE_COUNT
    &&& forall|i: int|
        0 <= i < FACE_COUNT ==> (#[trigger] faces[i])@ == face_mesh_of(
            Direction::spec_from_index(i),
            r,
        )
}

/// Builds all six faces of the planet as a unit.
///
/// The settings are checked once, before any mesh work: invalid settings give
/// the first violated rule and no face at all. Valid settings give exactly six
/// meshes, in canonical order.
pub fn build(settings: &PlanetSettings) -> (result: Result<Vec<FaceMesh>, SettingsError>)
    ensures
        match result {
            Ok(faces) => settings.spec_validate() is None && is_planet(
                faces@,
                settings.resolution as int,
            ),
            Err(e) => settings.spec_validate() == Some(e),
        },
{
    match settings.validate() {
        Err(e) => {
            return Err(e);
        },
        Ok(()) => {},
    }
    let directions = Direction::all();
    let mut faces: Vec<FaceMesh> = Vec::new();
    let mut i: usize = 0;
    while i < FACE_COUNT
        invariant
            i <= FACE_COUNT,
            settings.spec_validate() is None,
            directions@ == Direction::spec_all(),
            faces@.len() == i,
            forall|j: int|
                0 <= j < i ==> (#[trigger] faces@[j])@ == face_mesh_of(
                    Direction::spec_from_index(j),
                    settings.resolution as int,
                ),
        decreases FACE_COUNT - i,
    {
        let face = TerrainFace::new(directions[i]);
        match face.to_mesh(settings) {
            Ok(mesh) => {
                faces.push(mesh);
            },
            Err(e) => {
                return Err(e);
            },
        }
        i += 1;
    }
    Ok(faces)
}

/// Rebuilding a planet from the same settings reproduces it: two planets of
/// the same resolution agree face by face in lattice points, texture
/// coordinates and indices, so the identity of every face is stable across
/// rebuilds.
pub proof fn lemma_rebuild_is_stable(first: Seq<FaceMesh>, second: Seq<FaceMesh>, r: int)
    requires
        is_planet(first, r),
        is_planet(second, r),
    ensures
        first.len() == second.len(),
        forall|i: int| 0 <= i < FACE_COUNT ==> (#[trigger] first[i])@ == second[i]@,
{
}

} // verus!
