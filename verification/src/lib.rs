//! Edge-animation and hit-geometry engine for a screen-edge overlay widget.
//!
//! A thin strip is anchored to one edge of a monitor; it slides open when the
//! pointer approaches and closes when it retreats. This crate holds the
//! verified core of that behaviour: the transition state machine that turns
//! open/close intents plus wall-clock time into a bounded visible extent, the
//! frame scheduler that keeps redraw ticks running only while an animation is
//! in flight, the per-edge arithmetic that maps a visible extent onto input
//! hit rectangles and drawing transforms, the pointer-button event map, and
//! the validation of raw widget parameters into a typed configuration.
//!
//! Geometric quantities are carried as fixed-point integers (see
//! [`geometry::SUBPIXELS_PER_PIXEL`]), so fractional pixel values stay exact.
//! File discovery, JSON parsing, window surfaces and process launching live
//! outside this crate; they hand plain values in and take plain values back.

pub mod color;
pub mod config;
pub mod event;
pub mod frame;
pub mod geometry;
pub mod transition;
