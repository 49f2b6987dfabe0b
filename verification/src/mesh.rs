//! The mesh of one face: grid vertices, their lattice points on the cube,
//! texture coordinates and the triangulation.
//!
//! A face of resolution `r` is a grid of `r × r` vertices. The vertex at grid
//! coordinates `(x, y)` has the index `x + y * r`. Each of the `(r - 1)²` grid
//! cells is cut along the diagonal from `(x, y)` to `(x + 1, y + 1)` into two
//! triangles, both counter-clockwise in grid coordinates.

use vstd::prelude::*;
use vstd::arithmetic::div_mod::lemma_fundamental_div_mod_converse;
use crate::direction::Direction;
use crate::lattice::{lemma_scale_by_sign, LatticeVec};
use crate::planet_settings::{PlanetSettings, SettingsError, MAX_RESOLUTION};
use crate::terrain_face::{axis_a_of, axis_b_of, lemma_axes_are_directions, TerrainFace};

verus! {

/// Integer coordinates of a vertex in the grid of a face.
///
/// Divided by `resolution - 1` they are the texture coordinates of the
/// vertex, each between zero and one.
#[derive(Clone, Copy, Debug, PartialEq, Eq, Structural)]
pub struct GridPoint {
    pub x: u32,
    pub y: u32,
}

/// The mesh of one face in exact integer form.
///
/// `cube_points[i]` is the point of vertex `i` on the cube with corners
/// `(±(resolution - 1), ±(resolution - 1), ±(resolution - 1))`: the point on
/// the unit cube scaled by `resolution - 1`. `uvs[i]` holds the grid
/// coordinates of vertex `i`. `indices` is the triangle list.
#[derive(Clone, Debug, PartialEq, Eq)]
pub struct FaceMesh {
    pub resolution: u32,
    pub cube_points: Vec<LatticeVec>,
    pub uvs: Vec<GridPoint>,
    pub indices: Vec<u32>,
}

/// Mathematical value of a `FaceMesh`.
pub struct FaceMeshView {
    pub resolution: int,
    pub cube_points: Seq<LatticeVec>,
    pub uvs: Seq<GridPoint>,
    pub indices: Seq<u32>,
}

impl View for FaceMesh {
    type V = FaceMeshView;

    open spec fn view(&self) -> FaceMeshView {
        FaceMeshView {
            resolution: self.resolution as int,
            cube_points: self.cube_points@,
            uvs: self.uvs@,
            indices: self.indices@,
        }
    }
}

/// Number of vertices of a face of resolution `r`.
pub open spec fn vertex_count(r: int) -> int {
    r * r
}

/// Number of grid cells of a face of resolution `r`.
pub open spec fn quad_count(r: int) -> int {
    (r - 1) * (r - 1)
}

/// Number of entries of the triangle list of a face of resolution `r`: two
/// triangles of three corners for every grid cell.
pub open spec fn index_count(r: int) -> int {
    6 * quad_count(r)
}

/// Index of the vertex at grid coordinates `(x, y)`.
pub open spec fn vertex_index(r: int, x: int, y: int) -> int {
    x + y * r
}

/// Grid coordinates of vertex `i`.
pub open spec fn uv_at(r: int, i: int) -> GridPoint {
    GridPoint { x: (i % r) as u32, y: (i / r) as u32 }
}

/// What corner `c` of the six corners emitted for a grid cell adds to the
/// index of the cell's own vertex: the triangles are
/// `(0, r + 1, r)` and `(0, 1, r + 1)`.
pub open spec fn corner_offset(r: int, c: int) -> int {
    if c == 0 || c == 3 {
        0
    } else if c == 1 || c == 5 {
        r + 1
    } else if c == 2 {
        r
    } else {
        1
    }
}

/// Entry `k` of the triangle list. Cells are listed row by row; cell number
/// `k / 6` lies at `(x, y)` with `x = (k / 6) % (r - 1)` and
/// `y = (k / 6) / (r - 1)`.
pub open spec fn index_at(r: int, k: int) -> int {
    let cell = k / 6;
    vertex_index(r, cell % (r - 1), cell / (r - 1)) + corner_offset(r, k % 6)
}

/// The lattice point of the vertex at `(x, y)` on the face with outward normal
/// `up`: with `s = r - 1`, the point `s·up + (2x - s)·axis_a + (2y - s)·axis_b`.
pub open spec fn cube_point_at(up: Direction, r: int, x: int, y: int) -> LatticeVec {
    let s = r - 1;
    let u = up.spec_unit();
    let a = axis_a_of(up);
    let b = axis_b_of(up);
    LatticeVec {
        x: (s * u.x + (2 * x - s) * a.x + (2 * y - s) * b.x) as i64,
        y: (s * u.y + (2 * x - s) * a.y + (2 * y - s) * b.y) as i64,
        z: (s * u.z + (2 * x - s) * a.z + (2 * y - s) * b.z) as i64,
    }
}

/// The mesh of the face with outward normal `up` at resolution `r`.
pub open spec fn face_mesh_of(up: Direction, r: int) -> FaceMeshView {
    FaceMeshView {
        resolution: r,
        cube_points: Seq::new(vertex_count(r) as nat, |i: int| cube_point_at(up, r, i % r, i / r)),
        uvs: Seq::new(vertex_count(r) as nat, |i: int| uv_at(r, i)),
        indices: Seq::new(index_count(r) as nat, |k: int| index_at(r, k) as u32),
    }
}

/// Number of grid cells that lie before the vertex at `(x, y)` in row-major
/// order, for `0 <= x <= r` and `0 <= y <= r`.
pub open spec fn quads_before(r: int, x: int, y: int) -> int {
    if y < r - 1 {
        y * (r - 1) + (if x < r - 1 {
            x
        } else {
            r - 1
        })
    } else {
        quad_count(r)
    }
}

/// The vertex at `(x, y)` has index `x + y * r`, and that index names no
/// other grid point.
pub proof fn lemma_vertex_index(r: int, x: int, y: int)
    requires
        0 <= x < r,
        0 <= y < r,
    ensures
        0 <= vertex_index(r, x, y) < vertex_count(r),
        vertex_index(r, x, y) % r == x,
        vertex_index(r, x, y) / r == y,
{
    assert(0 <= y * r <= (r - 1) * r) by (nonlinear_arith)
        requires
            0 <= y <= r - 1,
            0 < r,
    ;
    assert((r - 1) * r + r == r * r) by (nonlinear_arith);
    lemma_fundamental_div_mod_converse(vertex_index(r, x, y), r, y, x);
}

/// The six entries of the triangle list that belong to the grid cell at
/// `(x, y)`: entry `6 * (x + y * (r - 1)) + c` is the vertex of the cell plus
/// the offset of corner `c`.
pub proof fn lemma_index_at(r: int, x: int, y: int, c: int)
    requires
        0 <= x < r - 1,
        0 <= y < r - 1,
        0 <= c < 6,
    ensures
        index_at(r, 6 * (y * (r - 1) + x) + c) == vertex_index(r, x, y) + corner_offset(r, c),
        0 <= 6 * (y * (r - 1) + x) + c < index_count(r),
        0 <= index_at(r, 6 * (y * (r - 1) + x) + c) < vertex_count(r),
{
    let cell = y * (r - 1) + x;
    let k = 6 * cell + c;
    assert(0 <= y * (r - 1) <= (r - 2) * (r - 1)) by (nonlinear_arith)
        requires
            0 <= y <= r - 2,
            0 < r - 1,
    ;
    assert((r - 2) * (r - 1) + (r - 1) == (r - 1) * (r - 1)) by (nonlinear_arith);
    lemma_fundamental_div_mod_converse(k, 6, cell, c);
    lemma_fundamental_div_mod_converse(cell, r - 1, y, x);
    assert(0 <= y * r <= (r - 2) * r) by (nonlinear_arith)
        requires
            0 <= y <= r - 2,
            0 < r,
    ;
    assert((r - 2) * r + 2 * r == r * r) by (nonlinear_arith);
}

/// One component of `s·u + p·a + q·b` for frame components `u`, `a`, `b`.
fn combine(s: i64, p: i64, q: i64, u: i64, a: i64, b: i64) -> (v: i64)
    requires
        -0x1_0000 <= s <= 0x1_0000,
        -0x1_0000 <= p <= 0x1_0000,
        -0x1_0000 <= q <= 0x1_0000,
        -1 <= u <= 1,
        -1 <= a <= 1,
        -1 <= b <= 1,
    ensures
        v == s * u + p * a + q * b,
{
    proof {
        lemma_scale_by_sign(s as int, u as int);
        lemma_scale_by_sign(p as int, a as int);
        lemma_scale_by_sign(q as int, b as int);
    }
    s * u + p * a + q * b
}

impl TerrainFace {
    /// What `to_mesh` returns for the face with outward normal `up`: the
    /// reason for which the settings are rejected, or the mesh at their
    /// resolution.
    pub open spec fn spec_to_mesh(up: Direction, settings: PlanetSettings) -> Result<
        FaceMeshView,
        SettingsError,
    > {
        match settings.spec_validate() {
            Some(e) => Err(e),
            None => Ok(face_mesh_of(up, settings.resolution as int)),
        }
    }

    /// The lattice point of the grid vertex `(x, y)` of this face at the given
    /// resolution.
    fn cube_point_in_grid(&self, resolution: u32, x: u32, y: u32) -> (point: LatticeVec)
        requires
            2 <= resolution <= MAX_RESOLUTION,
            x < resolution,
            y < resolution,
        ensures
            point == cube_point_at(self.up(), resolution as int, x as int, y as int),
    {
        proof {
            lemma_axes_are_directions(self.up());
        }
        let u = self.local_up();
        let a = self.axis_a();
        let b = self.axis_b();
        let s: i64 = (resolution - 1) as i64;
        let p: i64 = 2 * (x as i64) - s;
        let q: i64 = 2 * (y as i64) - s;
        LatticeVec {
            x: combine(s, p, q, u.x, a.x, b.x),
            y: combine(s, p, q, u.y, a.y, b.y),
            z: combine(s, p, q, u.z, a.z, b.z),
        }
    }

    /// The lattice point of the grid vertex `(x, y)` of this face at the given
    /// resolution; `None` if the resolution is out of range or the vertex is
    /// not in the grid.
    pub fn cube_point(&self, resolution: u32, x: u32, y: u32) -> (point: Option<LatticeVec>)
        ensures
            point == (if 2 <= resolution <= MAX_RESOLUTION && x < resolution && y < resolution {
                Some(cube_point_at(self.up(), resolution as int, x as int, y as int))
            } else {
                None
            }),
    {
        if resolution < 2 || resolution > MAX_RESOLUTION || x >= resolution || y >= resolution {
            None
        } else {
            Some(self.cube_point_in_grid(resolution, x, y))
        }
    }

    /// Generates the mesh of this face: `resolution²` vertices row by row,
    /// each with its lattice point on the cube and its grid coordinates, and
    /// two triangles for every grid cell.
    ///
    /// The settings are checked before any mesh work; invalid settings give
    /// the first violated rule and no mesh.
    pub fn to_mesh(&self, settings: &PlanetSettings) -> (result: Result<FaceMesh, SettingsError>)
        ensures
            match result {
                Ok(mesh) => TerrainFace::spec_to_mesh(self.up(), *settings) == Ok::<
                    FaceMeshView,
                    SettingsError,
                >(mesh@),
                Err(e) => TerrainFace::spec_to_mesh(self.up(), *settings) == Err::<
                    FaceMeshView,
                    SettingsError,
                >(e),
            },
    {
        match settings.validate() {
            Err(e) => {
                return Err(e);
            },
            Ok(()) => {},
        }
        let resolution: u32 = settings.resolution;
        let ghost up = self.up();
        let ghost r = resolution as int;
        let mut cube_points: Vec<LatticeVec> = Vec::new();
        let mut uvs: Vec<GridPoint> = Vec::new();
        let mut indices: Vec<u32> = Vec::new();
        let mut row_start: u32 = 0;
        let mut y: u32 = 0;
        assert(r * r <= 0xffff_0001) by (nonlinear_arith)
            requires
                2 <= r <= 0xffff,
        ;
        while y < resolution
            invariant
                r == resolution,
                up == self.up(),
                2 <= r <= MAX_RESOLUTION,
                r * r <= 0xffff_0001,
                0 <= y <= r,
                row_start == y * r,
                cube_points@.len() == y * r,
                uvs@.len() == y * r,
                forall|i: int|
                    0 <= i < y * r ==> cube_points@[i] == cube_point_at(up, r, i % r, i / r),
                forall|i: int| 0 <= i < y * r ==> uvs@[i] == uv_at(r, i),
                indices@.len() == 6 * quads_before(r, 0, y as int),
                forall|k: int| 0 <= k < indices@.len() ==> indices@[k] == index_at(r, k),
            decreases r - y,
        {
            let mut x: u32 = 0;
            while x < resolution
                invariant
                    r == resolution,
                    up == self.up(),
                    2 <= r <= MAX_RESOLUTION,
                    r * r <= 0xffff_0001,
                    0 <= y < r,
                    0 <= x <= r,
                    row_start == y * r,
                    cube_points@.len() == y * r + x,
                    uvs@.len() == y * r + x,
                    forall|i: int|
                        0 <= i < y * r + x ==> cube_points@[i] == cube_point_at(
                            up,
                            r,
                            i % r,
                            i / r,
                        ),
                    forall|i: int| 0 <= i < y * r + x ==> uvs@[i] == uv_at(r, i),
                    indices@.len() == 6 * quads_before(r, x as int, y as int),
                    forall|k: int| 0 <= k < indices@.len() ==> indices@[k] == index_at(r, k),
                decreases r - x,
            {
                proof {
                    lemma_vertex_index(r, x as int, y as int);
                }
                let index: u32 = row_start + x;
                cube_points.push(self.cube_point_in_grid(resolution, x, y));
                uvs.push(GridPoint { x, y });
                if x != resolution - 1 && y != resolution - 1 {
                    proof {
                        lemma_index_at(r, x as int, y as int, 0);
                        lemma_index_at(r, x as int, y as int, 1);
                        lemma_index_at(r, x as int, y as int, 2);
                        lemma_index_at(r, x as int, y as int, 3);
                        lemma_index_at(r, x as int, y as int, 4);
                        lemma_index_at(r, x as int, y as int, 5);
                    }
                    indices.push(index);
                    indices.push(index + resolution + 1);
                    indices.push(index + resolution);
                    indices.push(index);
                    indices.push(index + 1);
                    indices.push(index + resolution + 1);
                }
                x += 1;
            }
            proof {
                assert((y + 1) * r == y * r + r) by (nonlinear_arith);
                assert((y + 1) * (r - 1) == y * (r - 1) + (r - 1)) by (nonlinear_arith);
                assert((y + 1) * r <= r * r) by (nonlinear_arith)
                    requires
                        0 <= y + 1 <= r,
                ;
            }
            row_start += resolution;
            y += 1;
        }
        let mesh = FaceMesh { resolution, cube_points, uvs, indices };
        proof {
            let model = face_mesh_of(up, r);
            assert(mesh@.cube_points =~= model.cube_points);
            assert(mesh@.uvs =~= model.uvs);
            assert(mesh@.indices =~= model.indices);
        }
        Ok(mesh)
    }
}

/// Every vertex index below `r²` names a grid point: its coordinates lie in
/// `[0, r)`, so the texture coordinates `x / (r - 1)` and `y / (r - 1)` lie
/// between zero and one, and the index is recovered from the coordinates.
pub proof fn lemma_grid_coordinates(r: int, i: int)
    requires
        2 <= r <= MAX_RESOLUTION,
        0 <= i < vertex_count(r),
    ensures
        0 <= uv_at(r, i).x <= r - 1,
        0 <= uv_at(r, i).y <= r - 1,
        uv_at(r, i).x == i % r,
        uv_at(r, i).y == i / r,
        vertex_index(r, i % r, i / r) == i,
{
    vstd::arithmetic::div_mod::lemma_fundamental_div_mod(i, r);
    vstd::arithmetic::div_mod::lemma_mod_pos_bound(i, r);
    let q = i / r;
    assert(r * q == q * r) by (nonlinear_arith);
    assert(q < r) by (nonlinear_arith)
        requires
            q * r <= i,
            i < r * r,
            0 < r,
    ;
    assert(0 <= q) by (nonlinear_arith)
        requires
            q * r + r > i,
            0 <= i,
            0 < r,
    ;
}

/// Size of a face mesh: at resolution `r` it has exactly `r²` vertices, each
/// with a lattice point and grid coordinates, and exactly `6·(r - 1)²` index
/// entries, every one of which names a vertex.
pub proof fn lemma_mesh_counts(up: Direction, r: int)
    requires
        2 <= r <= MAX_RESOLUTION,
    ensures
        face_mesh_of(up, r).cube_points.len() == r * r,
        face_mesh_of(up, r).uvs.len() == r * r,
        face_mesh_of(up, r).indices.len() == 6 * ((r - 1) * (r - 1)),
        face_mesh_of(up, r).indices.len() % 3 == 0,
        forall|k: int|
            0 <= k < face_mesh_of(up, r).indices.len() ==> 0 <= #[trigger] face_mesh_of(
                up,
                r,
            ).indices[k] < r * r,
{
    assert(0 <= r * r <= 0xffff_0001) by (nonlinear_arith)
        requires
            2 <= r <= 0xffff,
    ;
    assert(0 <= (r - 1) * (r - 1)) by (nonlinear_arith);
    let mesh = face_mesh_of(up, r);
    assert forall|k: int| 0 <= k < mesh.indices.len() implies 0 <= #[trigger] mesh.indices[k] < r
        * r by {
        lemma_index_in_range(r, k);
    }
}

/// Entry `k` of the triangle list names a vertex of the grid.
pub proof fn lemma_index_in_range(r: int, k: int)
    requires
        2 <= r <= MAX_RESOLUTION,
        0 <= k < index_count(r),
    ensures
        0 <= index_at(r, k) < vertex_count(r),
        (k / 6) % (r - 1) < r - 1,
        (k / 6) / (r - 1) < r - 1,
{
    let cell = k / 6;
    let c = k % 6;
    let x = cell % (r - 1);
    let y = cell / (r - 1);
    vstd::arithmetic::div_mod::lemma_fundamental_div_mod(cell, r - 1);
    vstd::arithmetic::div_mod::lemma_mod_pos_bound(cell, r - 1);
    assert((r - 1) * y == y * (r - 1)) by (nonlinear_arith);
    assert(y < r - 1) by (nonlinear_arith)
        requires
            y * (r - 1) <= cell,
            cell < (r - 1) * (r - 1),
            0 < r - 1,
    ;
    assert(0 <= y) by (nonlinear_arith)
        requires
            y * (r - 1) + (r - 1) > cell,
            0 <= cell,
            0 < r - 1,
    ;
    lemma_index_at(r, x, y, c);
}

/// Winding of the smallest mesh: at resolution two the only grid cell gives
/// the triangles `(0, 3, 2)` and `(0, 1, 3)`.
pub proof fn lemma_winding_of_single_quad(up: Direction)
    ensures
        face_mesh_of(up, 2).indices == seq![0u32, 3u32, 2u32, 0u32, 1u32, 3u32],
{
    let indices = face_mesh_of(up, 2).indices;
    assert(quad_count(2) == 1) by (nonlinear_arith);
    assert(indices.len() == 6);
    lemma_index_at(2, 0, 0, 0);
    lemma_index_at(2, 0, 0, 1);
    lemma_index_at(2, 0, 0, 2);
    lemma_index_at(2, 0, 0, 3);
    lemma_index_at(2, 0, 0, 4);
    lemma_index_at(2, 0, 0, 5);
    assert(indices =~= seq![0u32, 3u32, 2u32, 0u32, 1u32, 3u32]);
}

/// Twice the signed area of the triangle with corners `a`, `b`, `c` in grid
/// coordinates: positive exactly if the corners run counter-clockwise.
pub open spec fn signed_area(a: GridPoint, b: GridPoint, c: GridPoint) -> int {
    (b.x - a.x) * (c.y - a.y) - (b.y - a.y) * (c.x - a.x)
}

/// Winding of every triangle: both triangles of the grid cell at `(x, y)`
/// run counter-clockwise in grid coordinates and cover half the cell each.
/// Since `axis_a × axis_b` is the outward normal, every triangle of every
/// face is counter-clockwise when seen from outside the cube.
pub proof fn lemma_winding(r: int, x: int, y: int)
    requires
        2 <= r <= MAX_RESOLUTION,
        0 <= x < r - 1,
        0 <= y < r - 1,
    ensures
        ({
            let k = 6 * (y * (r - 1) + x);
            &&& index_at(r, k) == vertex_index(r, x, y)
            &&& index_at(r, k + 1) == vertex_index(r, x + 1, y + 1)
            &&& index_at(r, k + 2) == vertex_index(r, x, y + 1)
            &&& index_at(r, k + 3) == vertex_index(r, x, y)
            &&& index_at(r, k + 4) == vertex_index(r, x + 1, y)
            &&& index_at(r, k + 5) == vertex_index(r, x + 1, y + 1)
            &&& signed_area(
                uv_at(r, index_at(r, k)),
                uv_at(r, index_at(r, k + 1)),
                uv_at(r, index_at(r, k + 2)),
            ) == 1
            &&& signed_area(
                uv_at(r, index_at(r, k + 3)),
                uv_at(r, index_at(r, k + 4)),
                uv_at(r, index_at(r, k + 5)),
            ) == 1
        }),
{
    lemma_index_at(r, x, y, 0);
    lemma_index_at(r, x, y, 1);
    lemma_index_at(r, x, y, 2);
    lemma_index_at(r, x, y, 3);
    lemma_index_at(r, x, y, 4);
    lemma_index_at(r, x, y, 5);
    assert((y + 1) * r == y * r + r) by (nonlinear_arith);
    lemma_vertex_index(r, x, y);
    lemma_vertex_index(r, x + 1, y);
    lemma_vertex_index(r, x, y + 1);
    lemma_vertex_index(r, x + 1, y + 1);
    let origin = uv_at(r, vertex_index(r, x, y));
    let right = uv_at(r, vertex_index(r, x + 1, y));
    let above = uv_at(r, vertex_index(r, x, y + 1));
    let across = uv_at(r, vertex_index(r, x + 1, y + 1));
    assert(origin.x == x && origin.y == y);
    assert(right.x == x + 1 && right.y == y);
    assert(above.x == x && above.y == y + 1);
    assert(across.x == x + 1 && across.y == y + 1);
    assert(signed_area(origin, across, above) == 1) by (nonlinear_arith)
        requires
            across.x - origin.x == 1,
            across.y - origin.y == 1,
            above.x - origin.x == 0,
            above.y - origin.y == 1,
    ;
    assert(signed_area(origin, right, across) == 1) by (nonlinear_arith)
        requires
            right.x - origin.x == 1,
            right.y - origin.y == 0,
            across.x - origin.x == 1,
            across.y - origin.y == 1,
    ;
}

/// Every vertex lies on its face of the cube: measured along the outward
/// normal the lattice point is at distance `r - 1`, and along the two
/// in-plane axes it is at `2x - (r - 1)` and `2y - (r - 1)`, both within
/// `[-(r - 1), r - 1]`. In particular no vertex is the origin, so every
/// vertex can be projected onto the sphere.
pub proof fn lemma_cube_point_on_face(up: Direction, r: int, x: int, y: int)
    requires
        2 <= r <= MAX_RESOLUTION,
        0 <= x < r,
        0 <= y < r,
    ensures
        cube_point_at(up, r, x, y).dot(up.spec_unit()) == r - 1,
        cube_point_at(up, r, x, y).dot(axis_a_of(up)) == 2 * x - (r - 1),
        cube_point_at(up, r, x, y).dot(axis_b_of(up)) == 2 * y - (r - 1),
        -(r - 1) <= 2 * x - (r - 1) <= r - 1,
        -(r - 1) <= 2 * y - (r - 1) <= r - 1,
        cube_point_at(up, r, x, y) != (LatticeVec { x: 0, y: 0, z: 0 }),
{
    let s = r - 1;
    let p = 2 * x - s;
    let q = 2 * y - s;
    lemma_cube_point_explicit(up, r, x, y);
    lemma_axes_are_directions(up);
    let point = cube_point_at(up, r, x, y);
    let u = up.spec_unit();
    let a = axis_a_of(up);
    let b = axis_b_of(up);
    lemma_scale_by_sign(point.x as int, u.x as int);
    lemma_scale_by_sign(point.y as int, u.y as int);
    lemma_scale_by_sign(point.z as int, u.z as int);
    lemma_scale_by_sign(point.x as int, a.x as int);
    lemma_scale_by_sign(point.y as int, a.y as int);
    lemma_scale_by_sign(point.z as int, a.z as int);
    lemma_scale_by_sign(point.x as int, b.x as int);
    lemma_scale_by_sign(point.y as int, b.y as int);
    lemma_scale_by_sign(point.z as int, b.z as int);
}

/// The lattice point of a vertex, face by face: with `s = r - 1`,
/// `p = 2x - s` and `q = 2y - s` the six faces hold the points
/// `(s, -q, p)`, `(p, s, -q)`, `(-q, p, s)`, `(-s, -q, -p)`, `(-p, -s, -q)`
/// and `(-q, -p, -s)`.
pub proof fn lemma_cube_point_explicit(up: Direction, r: int, x: int, y: int)
    requires
        2 <= r <= MAX_RESOLUTION,
        0 <= x < r,
        0 <= y < r,
    ensures
        ({
            let s = r - 1;
            let p = 2 * x - s;
            let q = 2 * y - s;
            let point = cube_point_at(up, r, x, y);
            match up {
                Direction::PosX => point.x == s && point.y == -q && point.z == p,
                Direction::PosY => point.x == p && point.y == s && point.z == -q,
                Direction::PosZ => point.x == -q && point.y == p && point.z == s,
                Direction::NegX => point.x == -s && point.y == -q && point.z == -p,
                Direction::NegY => point.x == -p && point.y == -s && point.z == -q,
                Direction::NegZ => point.x == -q && point.y == -p && point.z == -s,
            }
        }),
{
    let s = r - 1;
    let p = 2 * x - s;
    let q = 2 * y - s;
    let u = up.spec_unit();
    let a = axis_a_of(up);
    let b = axis_b_of(up);
    lemma_axes_are_directions(up);
    lemma_scale_by_sign(s, u.x as int);
    lemma_scale_by_sign(s, u.y as int);
    lemma_scale_by_sign(s, u.z as int);
    lemma_scale_by_sign(p, a.x as int);
    lemma_scale_by_sign(p, a.y as int);
    lemma_scale_by_sign(p, a.z as int);
    lemma_scale_by_sign(q, b.x as int);
    lemma_scale_by_sign(q, b.y as int);
    lemma_scale_by_sign(q, b.z as int);
}

/// Generating a mesh twice for the same face from the same settings gives the
/// same outcome: the same error, or meshes with identical lattice points,
/// texture coordinates and indices.
pub proof fn lemma_to_mesh_idempotent(
    up: Direction,
    settings: PlanetSettings,
    first: Result<FaceMesh, SettingsError>,
    second: Result<FaceMesh, SettingsError>,
)
    requires
        first matches Ok(mesh) ==> TerrainFace::spec_to_mesh(up, settings) == Ok::<
            FaceMeshView,
            SettingsError,
        >(mesh@),
        first matches Err(e) ==> TerrainFace::spec_to_mesh(up, settings) == Err::<
            FaceMeshView,
            SettingsError,
        >(e),
        second matches Ok(mesh) ==> TerrainFace::spec_to_mesh(up, settings) == Ok::<
            FaceMeshView,
            SettingsError,
        >(mesh@),
        second matches Err(e) ==> TerrainFace::spec_to_mesh(up, settings) == Err::<
            FaceMeshView,
            SettingsError,
        >(e),
    ensures
        first is Ok <==> second is Ok,
        first matches Ok(a) ==> (second matches Ok(b) ==> a@ == b@),
        first matches Err(e) ==> (second matches Err(f) ==> e == f),
{
}

/// Nothing but the resolution shapes the exact mesh: two valid settings of
/// the same resolution, whatever their radii and noise layers, give every
/// face the same indices, the same texture coordinates and the same lattice
/// points. A change of radius therefore only scales the displaced positions.
pub proof fn lemma_radius_leaves_topology(
    up: Direction,
    settings: PlanetSettings,
    changed: PlanetSettings,
)
    requires
        settings.spec_validate() is None,
        changed.spec_validate() is None,
        settings.resolution == changed.resolution,
    ensures
        TerrainFace::spec_to_mesh(up, settings) is Ok,
        TerrainFace::spec_to_mesh(up, settings) == TerrainFace::spec_to_mesh(up, changed),
{
}

} // verus!
