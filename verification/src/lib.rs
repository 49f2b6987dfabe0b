//! Exact combinatorial core of a cube-sphere planet mesh.
//!
//! A planet is six square grids, one per axis-aligned direction, each
//! projected onto a sphere and displaced by layered noise. Everything about
//! that construction that is a matter of integers and rules lives here and is
//! machine-checked: the orthonormal frame of each face, the lattice points of
//! the grid on the cube, the order of the vertices, the triangulation and its
//! winding, which noise layers are masked by the first one, and the validation
//! of the settings. Floating-point evaluation (normalisation, noise sampling,
//! displacement) is left to the caller, who is handed exact integer data.

pub mod lattice;
pub mod direction;
pub mod planet_settings;
pub mod terrain_face;
pub mod mesh;
pub mod planet_generation;
pub mod controls;
