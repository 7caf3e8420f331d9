//! A 2D rigid-body sandbox core: a grid of boxes over a static ground,
//! stepped by an external engine, viewed through a horizontally pannable
//! camera and rendered as a list of drawing commands.
//!
//! The crate models poses and extents as fixed-point integers (milli-units),
//! so that scene construction, camera accumulation and render projection are
//! exact. The floating-point engine, the drawing surface and the host
//! document are external collaborators that a thin shell drives with the
//! values this crate computes.

pub mod errors;
pub mod geom;
pub mod world;
pub mod scene;
pub mod render;
pub mod game;
pub mod input;
