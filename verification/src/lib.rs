//! Scoped transform stacks and canvas compositing for a 2D drawing loop.
//!
//! The library models the two pieces of per-frame engine state that drawing
//! code mutates - the model-matrix stack and the active render target - as
//! explicit values, and proves that the scoped helpers `apply`,
//! `apply_transforms` and `paint_canvas` restore them on every exit path,
//! at any nesting depth. Transforms are exact compositions of primitive
//! steps with fixed-point parameters, so composition order and stack
//! balance are stated precisely; a thin adapter turns the steps into the
//! engine's floating-point matrices at the drawing boundary.

pub mod canvas;
pub mod fixed;
pub mod shorthands;
pub mod stack;
pub mod text;
pub mod transform;

pub use canvas::{draw_canvas, new_canvas, paint_canvas, Camera, Canvas, DrawOp};
pub use fixed::{Fx, FX_ONE};
pub use shorthands::{
    downscale, flip_x, flip_xy, flip_y, rotate_cc, rotate_cw, rotate_x, rotate_y, rotate_z, scale,
    shift, upscale,
};
pub use stack::{apply, apply_transform, apply_transforms, Gl};
pub use text::{multiline_layout, split_lines};
pub use transform::{Prim, Transform};
