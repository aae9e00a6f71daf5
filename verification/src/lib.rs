//! Animation core for rigged 2D puppets.
//!
//! A puppet is a tree of nodes whose position, rotation, scale and draw order
//! are driven by named parameters. This crate holds the part of the engine
//! that works on integers: the framing of the container that holds a puppet,
//! the validation of a puppet description, the lowering of that description
//! into the engine's tree, the bucket search of the interpolation grid, the
//! bookkeeping of a frame and the back-to-front ordering of its draw
//! commands.
//!
//! Single-precision values never appear as numbers here. Every such value is
//! carried by its IEEE 754 bit pattern in a `u32`; comparisons, negation and
//! the total order are defined on those patterns in [`float`]. Arithmetic on
//! them is left to the caller: where a frame needs sums, products or
//! matrices, the caller computes them and hands the results in.

pub mod atomic;
pub mod engine;
pub mod error;
pub mod float;
pub mod io;
pub mod node;
pub mod ord;
pub mod pack;
pub mod param;
pub mod stable;
mod text;
pub mod texture;

pub use engine::PuppetEngine;
pub use engine::RenderCommand;
pub use error::Error;
pub use error::ErrorKind;
