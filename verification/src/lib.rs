//! Placeholder image generation library.
//!
//! Validates the parameters of a placeholder image (dimensions, colors,
//! display text, output format), renders a solid-color canvas, computes the
//! centered placement of the text, and encodes the finished pixel buffer in
//! one of several raster formats.

pub mod canvas;
pub mod color;
pub mod encode;
pub mod layout;
pub mod request;
