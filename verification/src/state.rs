//! The interaction flags widget chrome decides on.
use vstd::prelude::*;

verus! {

/// The boolean part of a widget's interaction snapshot.
///
/// The renderer's animated values (focus progress, sampled state-layer
/// opacity, press waves) stay with the renderer; the decisions made here read
/// only these flags.
#[derive(Debug, Clone, Copy, PartialEq, Eq, Structural)]
pub struct InteractionState {
    /// The widget is disabled and renders its inactive appearance.
    pub disabled: bool,
    /// The pointer is inside the widget bounds.
    pub hovered: bool,
    /// The primary pointer is pressing the widget.
    pub pressed: bool,
    /// Keyboard focus is visible on the widget.
    pub focus_visible: bool,
}

impl InteractionState {
    /// No active interaction state.
    pub fn none() -> (s: InteractionState)
        ensures
            !s.disabled && !s.hovered && !s.pressed && !s.focus_visible,
    {
        InteractionState { disabled: false, hovered: false, pressed: false, focus_visible: false }
    }
}

} // verus!
