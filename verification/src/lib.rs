//! A small verified 2D scene library: geometry factories for the built-in
//! primitive shapes, shader layout descriptors, shapes with per-frame
//! animation state, an ordered scene with back-to-front paint order, and
//! frame-rate throttling arithmetic.
//!
//! All coordinates, colors and offsets are fixed-point values in thousandths
//! of a unit (`geometry::UNIT` is one whole unit), so that every per-frame
//! update is exact integer arithmetic. A host front end converts these to the
//! floating-point values its GPU backend expects, uploads meshes, and replays
//! the draw commands that the scene records.

pub mod background;
pub mod color;
pub mod context;
pub mod geometry;
pub mod frame;
pub mod input;
pub mod scene;
pub mod stage;
pub mod shader;
pub mod shape;
pub mod square;
pub mod triangle;
