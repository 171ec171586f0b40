//! Material state layers: which resting opacity a widget's state layer takes
//! and which press waves it draws.
use vstd::prelude::*;
use crate::state::InteractionState;

verus! {

/// `StateTokens.HoverStateLayerOpacity`, in percent.
pub const HOVER_STATE_LAYER_OPACITY: u8 = 8;
/// `StateTokens.FocusStateLayerOpacity`, in percent.
pub const FOCUS_STATE_LAYER_OPACITY: u8 = 10;
/// `StateTokens.PressedStateLayerOpacity`, in percent.
pub const PRESSED_STATE_LAYER_OPACITY: u8 = 10;
/// `StateTokens.DraggedStateLayerOpacity`, in percent.
pub const DRAGGED_STATE_LAYER_OPACITY: u8 = 16;
/// Minimum ripple diameter (Material Web `MINIMUM_PRESS_DIAMETER`): small
/// targets still produce a ripple at least this wide.
pub const RIPPLE_MINIMUM_DIAMETER: u32 = 48;
/// A wave starts at this percentage of its full diameter over its press point
/// and grows to full size as its progress goes from 0 to 1.
pub const RIPPLE_INITIAL_SCALE_PERCENT: u32 = 40;

/// Where a state layer's resting opacity comes from.
#[derive(Debug, Clone, Copy, PartialEq, Eq, Structural)]
pub enum StateLayerOpacity {
    /// The focus token, scaled by the focus affordance's animated progress.
    FocusScaled(u8),
    /// The opacity the renderer sampled from its running animation.
    Sampled,
    /// A fixed token opacity, in percent.
    Token(u8),
}

pub open spec fn spec_resolved_state_layer_opacity(
    state: InteractionState,
    animation_running: bool,
) -> StateLayerOpacity {
    if state.focus_visible {
        StateLayerOpacity::FocusScaled(FOCUS_STATE_LAYER_OPACITY)
    } else if animation_running {
        StateLayerOpacity::Sampled
    } else if state.hovered {
        StateLayerOpacity::Token(HOVER_STATE_LAYER_OPACITY)
    } else {
        StateLayerOpacity::Token(0)
    }
}

/// The dominant resting state-layer opacity for `state`: visible focus
/// outranks everything (the focus token scaled by the focus progress); then
/// the renderer's sampled value while an animation is in flight
/// (`animation_running` is whether that sampled opacity is above zero); then
/// the hover token; otherwise none.
pub fn resolved_state_layer_opacity(state: InteractionState, animation_running: bool) -> (o:
    StateLayerOpacity)
    ensures
        o == spec_resolved_state_layer_opacity(state, animation_running),
{
    if state.focus_visible {
        StateLayerOpacity::FocusScaled(FOCUS_STATE_LAYER_OPACITY)
    } else if animation_running {
        StateLayerOpacity::Sampled
    } else if state.hovered {
        StateLayerOpacity::Token(HOVER_STATE_LAYER_OPACITY)
    } else {
        StateLayerOpacity::Token(0)
    }
}

/// The press wave a state built without renderer animation draws while it
/// reads as pressed.
#[derive(Debug, Clone, Copy, PartialEq, Eq, Structural)]
pub struct StaticPressWave {
    /// The wave has no press point: it is centred on the target.
    pub centered: bool,
    /// Grow progress, in percent of the full ripple.
    pub progress: u8,
    /// Wave opacity, in percent.
    pub opacity: u8,
}

pub open spec fn spec_static_press_wave() -> StaticPressWave {
    StaticPressWave { centered: true, progress: 100, opacity: PRESSED_STATE_LAYER_OPACITY }
}

/// The full-coverage wave of a static pressed state: centred on the target,
/// fully grown, at `StateTokens.PressedStateLayerOpacity` (10%).
pub fn static_press_wave() -> (w: StaticPressWave)
    ensures
        w == spec_static_press_wave(),
{
    StaticPressWave { centered: true, progress: 100, opacity: PRESSED_STATE_LAYER_OPACITY }
}

/// The press waves a state layer draws.
#[derive(Debug, Clone, PartialEq)]
pub enum ResolvedPressWaves<W> {
    /// The renderer-sampled waves in flight, oldest first.
    Sampled(Vec<W>),
    /// The single full-coverage wave of a static pressed state.
    Synthesized(StaticPressWave),
    /// No wave.
    Idle,
}

/// The press waves to draw: the renderer-sampled `waves` (oldest first) when
/// any are in flight; otherwise — for a state built without renderer
/// animation, as in static previews — the static full-coverage wave while the
/// state reads as pressed, and none when it does not.
pub fn resolved_press_waves<W>(waves: Vec<W>, pressed: bool) -> (r: ResolvedPressWaves<W>)
    ensures
        waves@.len() > 0 ==> (r matches ResolvedPressWaves::Sampled(v) && v@ == waves@),
        waves@.len() == 0 && pressed ==> r == ResolvedPressWaves::<W>::Synthesized(
            spec_static_press_wave(),
        ),
        waves@.len() == 0 && !pressed ==> r == ResolvedPressWaves::<W>::Idle,
{
    if waves.len() > 0 {
        ResolvedPressWaves::Sampled(waves)
    } else if pressed {
        ResolvedPressWaves::Synthesized(static_press_wave())
    } else {
        ResolvedPressWaves::Idle
    }
}

/// Visible focus outranks hover and any running animation.
pub proof fn lemma_focus_outranks_hover(state: InteractionState, animation_running: bool)
    requires
        state.focus_visible,
    ensures
        spec_resolved_state_layer_opacity(state, animation_running)
            == StateLayerOpacity::FocusScaled(FOCUS_STATE_LAYER_OPACITY),
{
}

/// The wave synthesized for a static press covers the whole target: it is
/// centred, fully grown, and as opaque as the pressed state-layer token.
pub proof fn lemma_static_press_covers_the_target()
    ensures
        spec_static_press_wave().centered,
        spec_static_press_wave().progress == 100,
        spec_static_press_wave().opacity == PRESSED_STATE_LAYER_OPACITY,
        spec_static_press_wave().opacity > HOVER_STATE_LAYER_OPACITY,
{
}

/// Without visible focus, a state layer whose animation is still running shows
/// the renderer's sampled opacity, hovered or not (a hover fading out after the
/// pointer left, or a press); only with no animation running does the hover
/// token or nothing apply.
pub proof fn lemma_running_animation_is_sampled(state: InteractionState, animation_running: bool)
    ensures
        !state.focus_visible && animation_running ==> spec_resolved_state_layer_opacity(
            state,
            animation_running,
        ) == StateLayerOpacity::Sampled,
        !state.focus_visible && !animation_running && state.hovered
            ==> spec_resolved_state_layer_opacity(state, animation_running) == StateLayerOpacity::Token(8),
        !state.focus_visible && !animation_running && !state.hovered
            ==> spec_resolved_state_layer_opacity(state, animation_running) == StateLayerOpacity::Token(0),
{
}

} // verus!
