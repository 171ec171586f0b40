//! The Material 3 Expressive slider: a bar handle sitting in a track split
//! around it.
use vstd::prelude::*;
use crate::color::{ColorRole, RolePaint, solid_paint, disabled_content_paint, disabled_container_paint};
use crate::dimensions::{
    SLIDER_HANDLE_HEIGHT, SLIDER_HANDLE_PADDING, SLIDER_HANDLE_WIDTH, SLIDER_HORIZONTAL_INSET,
    SLIDER_HORIZONTAL_SPACING, SLIDER_MIN_TRACK_WIDTH, SLIDER_PRESSED_HANDLE_WIDTH,
    SLIDER_STOP_INDICATOR_END_SPACE, SLIDER_STOP_INDICATOR_SIZE, SLIDER_TRACK_HEIGHT,
    SLIDER_TRACK_INSIDE_CORNER_SIZE, SLIDER_VERTICAL_SPACING,
};
use crate::metrics::{CornerRadii, SliderMetrics};
use crate::state::InteractionState;

verus! {

/// `md.comp.slider.state-layer.size` is 40dp: a 20dp-radius halo.
pub const SLIDER_STATE_LAYER_RADIUS: u32 = 20;

pub open spec fn spec_metrics() -> SliderMetrics {
    SliderMetrics {
        horizontal_inset: SLIDER_HORIZONTAL_INSET,
        horizontal_spacing: SLIDER_HORIZONTAL_SPACING,
        vertical_spacing: SLIDER_VERTICAL_SPACING,
        min_track_width: SLIDER_MIN_TRACK_WIDTH,
        track_height: SLIDER_TRACK_HEIGHT,
        handle_width: SLIDER_HANDLE_WIDTH,
        handle_height: SLIDER_HANDLE_HEIGHT,
    }
}

/// Layout metrics of the slider: a 16dp track and a 4 by 44dp bar handle
/// (`SliderTokens`).
pub fn metrics() -> (m: SliderMetrics)
    ensures
        m == spec_metrics(),
{
    SliderMetrics {
        horizontal_inset: SLIDER_HORIZONTAL_INSET,
        horizontal_spacing: SLIDER_HORIZONTAL_SPACING,
        vertical_spacing: SLIDER_VERTICAL_SPACING,
        min_track_width: SLIDER_MIN_TRACK_WIDTH,
        track_height: SLIDER_TRACK_HEIGHT,
        handle_width: SLIDER_HANDLE_WIDTH,
        handle_height: SLIDER_HANDLE_HEIGHT,
    }
}

pub open spec fn spec_handle_width(state: InteractionState) -> u32 {
    if state.pressed || state.focus_visible {
        SLIDER_PRESSED_HANDLE_WIDTH
    } else {
        SLIDER_HANDLE_WIDTH
    }
}

/// The live handle width: pressing or focusing narrows the 4dp bar to 2dp.
pub fn handle_width(state: InteractionState) -> (w: u32)
    ensures
        w == spec_handle_width(state),
{
    if state.pressed || state.focus_visible {
        SLIDER_PRESSED_HANDLE_WIDTH
    } else {
        SLIDER_HANDLE_WIDTH
    }
}

pub open spec fn spec_track_gap(state: InteractionState) -> u32 {
    (spec_handle_width(state) / 2 + SLIDER_HANDLE_PADDING) as u32
}

/// How far each track bar stops short of the value position: half the live
/// handle width plus `ActiveHandlePadding`, so the gap clears the handle's
/// edge and narrows with a narrower handle.
pub fn track_gap(state: InteractionState) -> (g: u32)
    ensures
        g == spec_track_gap(state),
{
    handle_width(state) / 2 + SLIDER_HANDLE_PADDING
}

/// The paints of the slider's track.
#[derive(Debug, Clone, Copy, PartialEq, Eq, Structural)]
pub struct TrackPaints {
    /// The inactive remainder past the handle.
    pub inactive: RolePaint,
    /// The active bar up to the handle.
    pub active: RolePaint,
    /// The stop indicator dot at the track's trailing end.
    pub stop_indicator: RolePaint,
}

pub open spec fn spec_track_paints(disabled: bool) -> TrackPaints {
    if disabled {
        TrackPaints {
            inactive: disabled_container_paint(ColorRole::OnSurface),
            active: disabled_content_paint(ColorRole::OnSurface),
            stop_indicator: disabled_content_paint(ColorRole::OnSurface),
        }
    } else {
        TrackPaints {
            inactive: solid_paint(ColorRole::SecondaryContainer),
            active: solid_paint(ColorRole::Primary),
            stop_indicator: solid_paint(ColorRole::OnSecondaryContainer),
        }
    }
}

/// The track's paints: a secondary-container inactive bar, a primary active
/// bar and an on-secondary-container stop dot; disabled, the inactive bar
/// drops to on-surface at 12% and the active bar and dot to on-surface at 38%.
pub fn track_paints(disabled: bool) -> (p: TrackPaints)
    ensures
        p == spec_track_paints(disabled),
{
    if disabled {
        TrackPaints {
            inactive: RolePaint::disabled_container(ColorRole::OnSurface),
            active: RolePaint::disabled_content(ColorRole::OnSurface),
            stop_indicator: RolePaint::disabled_content(ColorRole::OnSurface),
        }
    } else {
        TrackPaints {
            inactive: RolePaint::solid(ColorRole::SecondaryContainer),
            active: RolePaint::solid(ColorRole::Primary),
            stop_indicator: RolePaint::solid(ColorRole::OnSecondaryContainer),
        }
    }
}

pub open spec fn spec_inactive_track_radii() -> CornerRadii {
    CornerRadii {
        top_left: SLIDER_TRACK_INSIDE_CORNER_SIZE,
        top_right: SLIDER_TRACK_HEIGHT / 2,
        bottom_right: SLIDER_TRACK_HEIGHT / 2,
        bottom_left: SLIDER_TRACK_INSIDE_CORNER_SIZE,
    }
}

pub open spec fn spec_active_track_radii() -> CornerRadii {
    CornerRadii {
        top_left: SLIDER_TRACK_HEIGHT / 2,
        top_right: SLIDER_TRACK_INSIDE_CORNER_SIZE,
        bottom_right: SLIDER_TRACK_INSIDE_CORNER_SIZE,
        bottom_left: SLIDER_TRACK_HEIGHT / 2,
    }
}

/// The inactive bar's corners: the 2dp inside corner facing the handle gap,
/// a stadium end at the trailing edge.
pub fn inactive_track_radii() -> (r: CornerRadii)
    ensures
        r == spec_inactive_track_radii(),
{
    let outside = SLIDER_TRACK_HEIGHT / 2;
    let inside = SLIDER_TRACK_INSIDE_CORNER_SIZE;
    CornerRadii { top_left: inside, top_right: outside, bottom_right: outside, bottom_left: inside }
}

/// The active bar's corners: a stadium end at the leading edge, the 2dp
/// inside corner facing the handle gap.
pub fn active_track_radii() -> (r: CornerRadii)
    ensures
        r == spec_active_track_radii(),
{
    let outside = SLIDER_TRACK_HEIGHT / 2;
    let inside = SLIDER_TRACK_INSIDE_CORNER_SIZE;
    CornerRadii { top_left: outside, top_right: inside, bottom_right: inside, bottom_left: outside }
}

/// Distance from the track's trailing end to the stop dot's centre:
/// `stop-indicator.trailing-space` plus the dot's radius.
pub fn stop_indicator_offset() -> (d: u32)
    ensures
        d == SLIDER_STOP_INDICATOR_END_SPACE + SLIDER_STOP_INDICATOR_SIZE / 2,
{
    SLIDER_STOP_INDICATOR_END_SPACE + SLIDER_STOP_INDICATOR_SIZE / 2
}

/// How the handle is drawn.
#[derive(Debug, Clone, Copy, PartialEq, Eq, Structural)]
pub enum ThumbChrome {
    /// An enabled handle: a level-1 shadow under a filled bar.
    Raised { handle: RolePaint },
    /// A disabled handle: a semi-transparent bar over an opaque underlay, so
    /// content behind it cannot bleed through; no shadow.
    Flat { underlay: RolePaint, handle: RolePaint },
}

pub open spec fn spec_thumb(disabled: bool) -> ThumbChrome {
    if disabled {
        ThumbChrome::Flat {
            underlay: solid_paint(ColorRole::Background),
            handle: disabled_content_paint(ColorRole::OnSurface),
        }
    } else {
        ThumbChrome::Raised { handle: solid_paint(ColorRole::Primary) }
    }
}

/// The handle's chrome: primary at `md.comp.slider.handle.elevation` level 1,
/// or, disabled, on-surface at 38% over an opaque background underlay at
/// level 0.
pub fn thumb(disabled: bool) -> (c: ThumbChrome)
    ensures
        c == spec_thumb(disabled),
{
    if disabled {
        ThumbChrome::Flat {
            underlay: RolePaint::solid(ColorRole::Background),
            handle: RolePaint::disabled_content(ColorRole::OnSurface),
        }
    } else {
        ThumbChrome::Raised { handle: RolePaint::solid(ColorRole::Primary) }
    }
}

/// The handle's state-layer halo: primary, 20dp in radius; a disabled handle
/// takes no layer.
pub fn thumb_state_layer_role(disabled: bool) -> (r: Option<ColorRole>)
    ensures
        r == (if disabled { None } else { Some(ColorRole::Primary) }),
{
    if disabled {
        None
    } else {
        Some(ColorRole::Primary)
    }
}

/// Pressing or focusing narrows the handle, and the track gap narrows with
/// it; at rest and in every state the gap clears half the handle plus the
/// handle padding.
pub proof fn lemma_gap_follows_handle_width(state: InteractionState)
    ensures
        spec_track_gap(state) * 2 == spec_handle_width(state) + 2 * SLIDER_HANDLE_PADDING,
        (state.pressed || state.focus_visible) ==> spec_handle_width(state) < SLIDER_HANDLE_WIDTH,
        (state.pressed || state.focus_visible) ==> spec_track_gap(state) < spec_track_gap(
            InteractionState { pressed: false, focus_visible: false, ..state },
        ),
{
}

/// The two track bars are mirror images: each rounds its outer end into a
/// stadium and tucks the corners facing the handle in.
pub proof fn lemma_track_bars_mirror()
    ensures
        spec_active_track_radii().top_left == spec_inactive_track_radii().top_right,
        spec_active_track_radii().top_right == spec_inactive_track_radii().top_left,
        spec_active_track_radii().top_left * 2 == SLIDER_TRACK_HEIGHT,
        spec_inactive_track_radii().top_left < spec_inactive_track_radii().top_right,
{
}

/// A disabled slider paints everything in on-surface, never at full opacity:
/// the inactive bar at the 12% disabled-container opacity, the active bar and
/// the stop indicator at the 38% disabled-content opacity. An enabled slider's
/// paints are all opaque.
pub proof fn lemma_disabled_track_palette(disabled: bool)
    ensures
        disabled ==> spec_track_paints(disabled).inactive == (RolePaint { role: ColorRole::OnSurface, opacity: 12 }),
        disabled ==> spec_track_paints(disabled).active == (RolePaint { role: ColorRole::OnSurface, opacity: 38 }),
        disabled ==> spec_track_paints(disabled).stop_indicator == (RolePaint { role: ColorRole::OnSurface, opacity: 38 }),
        disabled ==> spec_track_paints(disabled).inactive.opacity < 100
            && spec_track_paints(disabled).active.opacity < 100
            && spec_track_paints(disabled).stop_indicator.opacity < 100,
        !disabled ==> spec_track_paints(disabled).inactive.opacity == 100
            && spec_track_paints(disabled).active.opacity == 100
            && spec_track_paints(disabled).stop_indicator.opacity == 100,
{
}

} // verus!
