//! Verified core of a procedural video renderer.
//!
//! The library produces a video as a sequence of raster frames: a `Renderer`
//! owns the frame clock and hands out one `Frame` token per tick, an
//! `Animator` maps normalized global time to a windowed local progress value,
//! and a `Typst` compositor tracks a rasterized vector document together with
//! its placement parameters.  All time arithmetic is done on exact rationals,
//! so the clock and state-machine contracts hold without rounding error.
//! Drawing, encoding and subprocess work stay outside the library; callers
//! hand in plain byte buffers and events and take plain values back.

pub mod animator;

pub mod frame;

pub mod rat;

pub mod renderer;

pub mod typst;
