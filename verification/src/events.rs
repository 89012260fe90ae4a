//! Semantic event and action types.
//!
//! The platform's raw input values are translated at the loop boundary
//! into these plain value types; the translation is total and lossless
//! for the fields carried here.  Actions are what the dispatcher hands
//! back to the surrounding loop: the one outside effect it must perform
//! for the event just dispatched.

use vstd::prelude::*;
use crate::rat::Scalar;
use crate::vec2::Vec2;
use crate::surface::FbSize;

verus! {

/// Press or release of a button or key.
#[derive(Clone, Copy, Debug, PartialEq, Eq, Structural)]
pub enum ElementState {
    Pressed,
    Released,
}

/// Snapshot of the keyboard modifier set.
#[derive(Clone, Copy, Debug, PartialEq, Eq, Structural)]
pub struct Modifiers {
    pub shift: bool,
    pub ctrl: bool,
    pub alt: bool,
    pub meta: bool,
}

/// A semantic key event, built from the current modifier snapshot; the
/// application's handler may mark it cancelled.
#[derive(Clone, Copy, Debug, PartialEq, Eq, Structural)]
pub struct KeyEvent {
    pub state: ElementState,
    pub modifiers: Modifiers,
    pub keycode: u32,
    pub cancelled: bool,
}

/// A platform scroll delta: pixel-precise or line-precise.
#[derive(Clone, Copy, Debug)]
pub enum ScrollDelta {
    Pixel(Vec2),
    Line(Vec2),
}

/// The control-flow mode the loop takes after an iteration: block for
/// the next event, self-wake one update interval from now or from the
/// deadline just reached, or terminate.
#[derive(Clone, Copy, Debug, PartialEq, Eq, Structural)]
pub enum Mode {
    Wait,
    WaitUntilFromNow,
    WaitUntilFromDeadline,
    Exit,
}

/// What a serviced redraw must do outside the library: repoint the GPU
/// surface when the framebuffer changed, then render at exactly the
/// reconciled framebuffer size.
#[derive(Clone, Copy, Debug)]
pub struct RenderStep {
    pub resize_surface: bool,
    pub framebuffer_size: FbSize,
}

/// A click forwarded to the application: the current page, the scene
/// position under the composed view transform, and the button state.
#[derive(Clone, Copy, Debug)]
pub struct Click {
    pub page_nr: usize,
    pub pos: Vec2,
    pub state: ElementState,
}

/// The effect of a scroll event: a multiplicative zoom step or a pan
/// translation of the view center.
#[derive(Clone, Copy, Debug)]
pub enum ScrollAction {
    Zoom(Scalar),
    Pan(Vec2),
}

} // verus!
