//! Brick walls along freehand curves: a brick template is validated once,
//! placed bricks are merged into one vertex and index buffer, and a session
//! keeps the curves being drawn together with the walls baked for them.
//!
//! Vector values are `glam` types. They are carried through the library as
//! opaque values; every computation on their coordinates is a `glam` call
//! whose result is referred to by name in the contracts.

pub mod blocks;
pub mod brick;
pub mod curve_manager;
pub mod instance_buffer;
pub mod instance_laws;
pub mod instanced_wall;
pub mod math;
pub mod mesh_buffer;
pub mod smoothing;
