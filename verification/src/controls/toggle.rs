//! Material 3 toggles: the switch and the checkbox.
use vstd::prelude::*;
use crate::color::{
    BlendPaint, ColorRole, RolePaint, solid_paint, disabled_content_paint, disabled_container_paint,
};
use crate::dimensions::{
    TOGGLE_CHECKBOX_SIZE, TOGGLE_LABEL_SPACING, TOGGLE_SWITCH_HEIGHT,
    TOGGLE_SWITCH_PRESSED_HANDLE_SIZE, TOGGLE_SWITCH_SELECTED_HANDLE_SIZE,
    TOGGLE_SWITCH_THUMB_PADDING, TOGGLE_SWITCH_UNSELECTED_HANDLE_SIZE, TOGGLE_SWITCH_WIDTH,
};
use crate::metrics::ToggleMetrics;
use crate::state::InteractionState;

verus! {

/// The toggle styles this theme draws.
#[derive(Debug, Clone, Copy, PartialEq, Eq, Structural)]
pub enum ToggleStyle {
    /// The theme's default: the switch.
    Automatic,
    /// The switch.
    Switch,
    /// The checkbox.
    Checkbox,
}

/// The state-layer halo around a switch thumb or a checkbox: 20dp in radius.
pub const TOGGLE_STATE_LAYER_RADIUS: u32 = 20;

pub open spec fn spec_metrics(style: ToggleStyle) -> ToggleMetrics {
    match style {
        ToggleStyle::Checkbox => ToggleMetrics {
            width: TOGGLE_CHECKBOX_SIZE,
            height: TOGGLE_CHECKBOX_SIZE,
            label_spacing: TOGGLE_LABEL_SPACING,
        },
        _ => ToggleMetrics {
            width: TOGGLE_SWITCH_WIDTH,
            height: TOGGLE_SWITCH_HEIGHT,
            label_spacing: TOGGLE_LABEL_SPACING,
        },
    }
}

/// Layout metrics of a toggle: the 52 by 32dp switch track (also for
/// `Automatic`) or the 18dp checkbox, each 8dp from its label.
pub fn metrics(style: ToggleStyle) -> (m: ToggleMetrics)
    ensures
        m == spec_metrics(style),
{
    match style {
        ToggleStyle::Automatic | ToggleStyle::Switch => ToggleMetrics {
            width: TOGGLE_SWITCH_WIDTH,
            height: TOGGLE_SWITCH_HEIGHT,
            label_spacing: TOGGLE_LABEL_SPACING,
        },
        ToggleStyle::Checkbox => ToggleMetrics {
            width: TOGGLE_CHECKBOX_SIZE,
            height: TOGGLE_CHECKBOX_SIZE,
            label_spacing: TOGGLE_LABEL_SPACING,
        },
    }
}

pub open spec fn spec_thumb_rest_inset() -> u32 {
    (TOGGLE_SWITCH_THUMB_PADDING + TOGGLE_SWITCH_SELECTED_HANDLE_SIZE / 2) as u32
}

/// How far the thumb's resting centres sit in from the track's ends.
///
/// Compose reserves a slot the width of the *selected* handle at each end,
/// inset by `ThumbPadding`, and centres whatever size the thumb currently is
/// inside it, so both rest centres sit half a selected handle in from the
/// padding and growing or shrinking the thumb never moves it sideways. The
/// renderer moves the centre between the two rests with the value animation.
pub fn switch_thumb_rest_inset() -> (d: u32)
    ensures
        d == spec_thumb_rest_inset(),
{
    TOGGLE_SWITCH_THUMB_PADDING + TOGGLE_SWITCH_SELECTED_HANDLE_SIZE / 2
}

/// The switch handle's diameter.
#[derive(Debug, Clone, Copy, PartialEq, Eq, Structural)]
pub enum SwitchHandle {
    /// A fixed diameter.
    Fixed(u32),
    /// A diameter that grows from `from` to `to` with the value animation.
    Grow { from: u32, to: u32 },
}

pub open spec fn spec_switch_handle(pressed: bool) -> SwitchHandle {
    if pressed {
        SwitchHandle::Fixed(TOGGLE_SWITCH_PRESSED_HANDLE_SIZE)
    } else {
        SwitchHandle::Grow {
            from: TOGGLE_SWITCH_UNSELECTED_HANDLE_SIZE,
            to: TOGGLE_SWITCH_SELECTED_HANDLE_SIZE,
        }
    }
}

/// The handle's diameter: the 28dp pressed handle while pressed, otherwise
/// growing from the 16dp unselected handle to the 24dp selected one.
pub fn switch_handle(pressed: bool) -> (h: SwitchHandle)
    ensures
        h == spec_switch_handle(pressed),
{
    if pressed {
        SwitchHandle::Fixed(TOGGLE_SWITCH_PRESSED_HANDLE_SIZE)
    } else {
        SwitchHandle::Grow {
            from: TOGGLE_SWITCH_UNSELECTED_HANDLE_SIZE,
            to: TOGGLE_SWITCH_SELECTED_HANDLE_SIZE,
        }
    }
}

/// The thumb's paint.
#[derive(Debug, Clone, Copy, PartialEq, Eq, Structural)]
pub enum ThumbPaint {
    /// One paint regardless of the value animation.
    Solid(RolePaint),
    /// A paint that follows the value animation.
    Blend(BlendPaint),
}

/// The paints of a switch.
#[derive(Debug, Clone, Copy, PartialEq, Eq, Structural)]
pub struct SwitchPaints {
    /// The track, from unselected to selected.
    pub track: BlendPaint,
    /// The unselected outline, whose width shrinks from 2dp to nothing as the
    /// switch turns on.
    pub outline: RolePaint,
    /// The thumb.
    pub thumb: ThumbPaint,
    /// The check icon on the selected thumb.
    pub icon: RolePaint,
}

pub open spec fn spec_switch_paints(state: InteractionState, selected: bool) -> SwitchPaints {
    SwitchPaints {
        track: if state.disabled {
            BlendPaint {
                from: disabled_container_paint(ColorRole::SurfaceContainerHighest),
                to: disabled_container_paint(ColorRole::OnSurface),
            }
        } else {
            BlendPaint {
                from: solid_paint(ColorRole::SurfaceContainerHighest),
                to: solid_paint(ColorRole::Primary),
            }
        },
        outline: if state.disabled {
            disabled_container_paint(ColorRole::OnSurface)
        } else {
            solid_paint(ColorRole::Outline)
        },
        thumb: if state.disabled {
            ThumbPaint::Blend(BlendPaint {
                from: disabled_content_paint(ColorRole::OnSurface),
                to: solid_paint(ColorRole::Surface),
            })
        } else if state.pressed || state.hovered || state.focus_visible {
            ThumbPaint::Solid(
                solid_paint(
                    if selected {
                        ColorRole::PrimaryContainer
                    } else {
                        ColorRole::OnSurfaceVariant
                    },
                ),
            )
        } else {
            ThumbPaint::Blend(BlendPaint {
                from: solid_paint(ColorRole::Outline),
                to: solid_paint(ColorRole::OnPrimary),
            })
        },
        icon: if state.disabled {
            disabled_content_paint(ColorRole::OnSurface)
        } else {
            solid_paint(ColorRole::OnPrimaryContainer)
        },
    }
}

/// A switch's paints. Enabled: a surface-container-highest track turning
/// primary, an outline-colored border, an outline thumb turning on-primary —
/// primary-container (selected) or on-surface-variant (unselected) while
/// pressed, hovered or focused — and an on-primary-container check. Disabled:
/// the track drops to surface-container-highest at 12% (unchecked) or
/// on-surface at 12% (checked), the outline to on-surface at 12%, the thumb to
/// on-surface at 38% (unchecked) or opaque surface (checked), and the check
/// to on-surface at 38%.
pub fn switch_paints(state: InteractionState, selected: bool) -> (p: SwitchPaints)
    ensures
        p == spec_switch_paints(state, selected),
{
    let track = if state.disabled {
        BlendPaint {
            from: RolePaint::disabled_container(ColorRole::SurfaceContainerHighest),
            to: RolePaint::disabled_container(ColorRole::OnSurface),
        }
    } else {
        BlendPaint {
            from: RolePaint::solid(ColorRole::SurfaceContainerHighest),
            to: RolePaint::solid(ColorRole::Primary),
        }
    };
    let outline = if state.disabled {
        RolePaint::disabled_container(ColorRole::OnSurface)
    } else {
        RolePaint::solid(ColorRole::Outline)
    };
    let thumb = if state.disabled {
        ThumbPaint::Blend(BlendPaint {
            from: RolePaint::disabled_content(ColorRole::OnSurface),
            to: RolePaint::solid(ColorRole::Surface),
        })
    } else if state.pressed || state.hovered || state.focus_visible {
        if selected {
            ThumbPaint::Solid(RolePaint::solid(ColorRole::PrimaryContainer))
        } else {
            ThumbPaint::Solid(RolePaint::solid(ColorRole::OnSurfaceVariant))
        }
    } else {
        ThumbPaint::Blend(BlendPaint {
            from: RolePaint::solid(ColorRole::Outline),
            to: RolePaint::solid(ColorRole::OnPrimary),
        })
    };
    let icon = if state.disabled {
        RolePaint::disabled_content(ColorRole::OnSurface)
    } else {
        RolePaint::solid(ColorRole::OnPrimaryContainer)
    };
    SwitchPaints { track, outline, thumb, icon }
}

/// The switch handle's elevation level (`md.comp.switch.handle.elevation`):
/// level 1 when enabled, level 0 when disabled
/// (`md.comp.switch.disabled.handle.elevation`).
pub fn switch_thumb_elevation(disabled: bool) -> (level: u8)
    ensures
        level == (if disabled { 0u8 } else { 1u8 }),
{
    if disabled {
        0
    } else {
        1
    }
}

pub open spec fn spec_toggle_layer_role(active: bool) -> ColorRole {
    if active {
        ColorRole::Primary
    } else {
        ColorRole::OnSurface
    }
}

/// The switch thumb's state-layer color follows the checked attribute:
/// primary when selected, on-surface otherwise.
pub fn switch_state_layer_role(selected: bool) -> (r: ColorRole)
    ensures
        r == spec_toggle_layer_role(selected),
{
    if selected {
        ColorRole::Primary
    } else {
        ColorRole::OnSurface
    }
}

/// The paints of a checkbox.
#[derive(Debug, Clone, Copy, PartialEq, Eq, Structural)]
pub struct CheckboxPaints {
    /// The unchecked outline, fading out as the box checks.
    pub outline: RolePaint,
    /// The checked container, fading and scaling in.
    pub container: RolePaint,
    /// The check mark.
    pub check: RolePaint,
}

pub open spec fn spec_checkbox_paints(disabled: bool) -> CheckboxPaints {
    if disabled {
        CheckboxPaints {
            outline: disabled_content_paint(ColorRole::OnSurface),
            container: disabled_content_paint(ColorRole::OnSurface),
            check: solid_paint(ColorRole::Surface),
        }
    } else {
        CheckboxPaints {
            outline: solid_paint(ColorRole::OnSurfaceVariant),
            container: solid_paint(ColorRole::Primary),
            check: solid_paint(ColorRole::OnPrimary),
        }
    }
}

/// A checkbox's paints: an on-surface-variant outline, a primary container
/// and an on-primary check; disabled, the outline and container drop to
/// on-surface at 38% and the check takes the surface color.
pub fn checkbox_paints(disabled: bool) -> (p: CheckboxPaints)
    ensures
        p == spec_checkbox_paints(disabled),
{
    if disabled {
        CheckboxPaints {
            outline: RolePaint::disabled_content(ColorRole::OnSurface),
            container: RolePaint::disabled_content(ColorRole::OnSurface),
            check: RolePaint::solid(ColorRole::Surface),
        }
    } else {
        CheckboxPaints {
            outline: RolePaint::solid(ColorRole::OnSurfaceVariant),
            container: RolePaint::solid(ColorRole::Primary),
            check: RolePaint::solid(ColorRole::OnPrimary),
        }
    }
}

/// The checkbox's state-layer color: primary once the box has begun to check
/// (`checking` is whether the animated progress is above zero), on-surface
/// otherwise.
pub fn checkbox_state_layer_role(checking: bool) -> (r: ColorRole)
    ensures
        r == spec_toggle_layer_role(checking),
{
    if checking {
        ColorRole::Primary
    } else {
        ColorRole::OnSurface
    }
}

/// The thumb stays inside the track whatever size it draws at: every handle
/// diameter fits the track's height, half of it fits the rest inset, and the
/// two rest centres are distinct.
pub proof fn lemma_thumb_fits_its_slot(pressed: bool)
    ensures
        ({
            let h = spec_switch_handle(pressed);
            let largest = match h {
                SwitchHandle::Fixed(d) => d,
                SwitchHandle::Grow { from, to } => if from < to { to } else { from },
            };
            &&& largest <= TOGGLE_SWITCH_HEIGHT
            &&& largest / 2 <= spec_thumb_rest_inset()
        }),
        2 * spec_thumb_rest_inset() < TOGGLE_SWITCH_WIDTH,
        spec_thumb_rest_inset() * 2 == TOGGLE_SWITCH_HEIGHT,
{
}

/// A disabled switch's thumb ends at an opaque surface and never uses the
/// interaction colors; an enabled thumb under interaction takes its color
/// from the selection alone.
pub proof fn lemma_switch_thumb_palette(state: InteractionState, selected: bool)
    ensures
        state.disabled ==> spec_switch_paints(state, selected).thumb == ThumbPaint::Blend(
            BlendPaint {
                from: disabled_content_paint(ColorRole::OnSurface),
                to: solid_paint(ColorRole::Surface),
            },
        ),
        !state.disabled && (state.pressed || state.hovered || state.focus_visible) ==> spec_switch_paints(
            state,
            selected,
        ).thumb == spec_switch_paints(
            InteractionState { pressed: true, hovered: false, focus_visible: false, ..state },
            selected,
        ).thumb,
{
}

/// An enabled switch that is not pressed, hovered or focused paints its thumb
/// moving from the outline color (off) to on-primary (on) with the value
/// animation, whatever the selection; only an enabled thumb under interaction
/// takes a solid color, primary-container when selected and
/// on-surface-variant when not.
pub proof fn lemma_thumb_color_by_interaction(state: InteractionState, selected: bool)
    ensures
        !state.disabled && !state.pressed && !state.hovered && !state.focus_visible
            ==> spec_switch_paints(state, selected).thumb == ThumbPaint::Blend(BlendPaint {
                from: RolePaint { role: ColorRole::Outline, opacity: 100 },
                to: RolePaint { role: ColorRole::OnPrimary, opacity: 100 },
            }),
        !state.disabled && (state.pressed || state.hovered || state.focus_visible) && selected
            ==> spec_switch_paints(state, selected).thumb == ThumbPaint::Solid(
                RolePaint { role: ColorRole::PrimaryContainer, opacity: 100 },
            ),
        !state.disabled && (state.pressed || state.hovered || state.focus_visible) && !selected
            ==> spec_switch_paints(state, selected).thumb == ThumbPaint::Solid(
                RolePaint { role: ColorRole::OnSurfaceVariant, opacity: 100 },
            ),
        (spec_switch_paints(state, selected).thumb is Solid) <==> (!state.disabled && (
            state.pressed || state.hovered || state.focus_visible)),
{
}

} // verus!
