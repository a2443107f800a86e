//! Procedural terrain frames: a coherent-noise sample per pixel is banded
//! into water, mountains or peaks and written out as an RGBA8 buffer.
pub mod sample;
pub mod params;
pub mod canvas;
pub mod frame;
