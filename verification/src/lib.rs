//! A draggable resize handle for uniformly rescaling a plugin GUI window.
//!
//! The handle is rendered as a right triangle in the bottom-right corner of the
//! window. This crate holds the handle's core logic: the geometric hit test
//! that decides whether a pointer position falls on the visible triangle, and
//! the drag state machine that tracks pointer capture and recomputes the
//! requested scale factor while a drag is in progress.
//!
//! All coordinates are plain fixed-point integers in units chosen by the
//! caller (the hit test and the scale computation are both invariant under a
//! common rescaling of all coordinates), and scale factors are fixed-point
//! integers in millionths. The surrounding GUI toolkit delivers pointer events
//! and applies the requested side effects; this crate only decides.

pub mod geometry;
pub mod handle;
pub mod scale;
