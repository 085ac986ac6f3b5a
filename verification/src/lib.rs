//! Rendering core of a single-image viewer.
//!
//! The crate decides what the graphics driver is asked to do and in which
//! order, and computes the geometry of the textured quad. It never talks to
//! the driver itself: every operation hands back the commands to run, and
//! operations that need an answer from the driver are small machines that are
//! advanced with that answer. Image files are opened and decoded by the
//! caller, who hands the pixels in as a `bitmap::Bitmap`.

pub mod bitmap;
pub mod command;
pub mod error;
pub mod geometry;
pub mod mesh;
pub mod shader;
pub mod state;
pub mod texture;
