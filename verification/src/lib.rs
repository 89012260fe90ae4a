//! Coordination layer between a platform windowing subsystem and a
//! GPU-accelerated 2D scene renderer.
//!
//! The crate owns the logic of a single on-screen surface: reconciling the
//! device-pixel framebuffer with the logical window size (tile-aligned),
//! turning raw platform events into semantic application events, tracking
//! pan/zoom interaction state, and deciding when the surrounding loop must
//! redraw, re-arm its timer, or exit.  All geometry is carried as exact
//! rational numbers, so every contract states the produced value precisely.

pub mod rat;
pub mod vec2;
pub mod surface;
pub mod transform;
pub mod events;
pub mod coordinator;
