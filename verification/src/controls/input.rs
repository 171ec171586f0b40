//! The Material 3 filled text field: metrics and the roles its chrome uses.
use vstd::prelude::*;
use crate::color::{ColorRole, RolePaint, solid_paint, disabled_content_paint};
use crate::dimensions::{
    INPUT_FIELD_HORIZONTAL_INSET, INPUT_FIELD_MIN_HEIGHT, INPUT_FIELD_MIN_WIDTH,
    INPUT_FIELD_VERTICAL_INSET, INPUT_FILLED_CONTAINER_TOP_RADIUS, INPUT_LABEL_HEIGHT,
};
use crate::metrics::{CornerRadii, InputFieldMetrics};
use crate::theme::state_layer::HOVER_STATE_LAYER_OPACITY;
use crate::state::InteractionState;

verus! {

/// Opacity of the text selection highlight over the primary role.
pub const INPUT_SELECTION_OPACITY: u8 = 28;
/// `FilledTextFieldTokens.DisabledContainerOpacity`.
pub const INPUT_DISABLED_CONTAINER_OPACITY: u8 = 4;

pub open spec fn spec_metrics() -> InputFieldMetrics {
    InputFieldMetrics {
        label_height: INPUT_LABEL_HEIGHT,
        min_width: INPUT_FIELD_MIN_WIDTH,
        min_height: INPUT_FIELD_MIN_HEIGHT,
        horizontal_inset: INPUT_FIELD_HORIZONTAL_INSET,
        vertical_inset: INPUT_FIELD_VERTICAL_INSET,
    }
}

/// Layout metrics of the filled text field: 280dp minimum width and 56dp
/// minimum height (`TextFieldDefaults`).
pub fn metrics() -> (m: InputFieldMetrics)
    ensures
        m == spec_metrics(),
{
    InputFieldMetrics {
        label_height: INPUT_LABEL_HEIGHT,
        min_width: INPUT_FIELD_MIN_WIDTH,
        min_height: INPUT_FIELD_MIN_HEIGHT,
        horizontal_inset: INPUT_FIELD_HORIZONTAL_INSET,
        vertical_inset: INPUT_FIELD_VERTICAL_INSET,
    }
}

/// The placeholder text color: on-surface-variant.
pub fn placeholder_role() -> (r: ColorRole)
    ensures
        r == ColorRole::OnSurfaceVariant,
{
    ColorRole::OnSurfaceVariant
}

/// The text selection highlight: primary at 28%.
pub fn selection_paint() -> (p: RolePaint)
    ensures
        p == (RolePaint { role: ColorRole::Primary, opacity: INPUT_SELECTION_OPACITY }),
{
    RolePaint::with_opacity(ColorRole::Primary, INPUT_SELECTION_OPACITY)
}

/// The paints of the filled field's container and resting indicator line.
#[derive(Debug, Clone, Copy, PartialEq, Eq, Structural)]
pub struct FieldPaints {
    /// The top-rounded container.
    pub container: RolePaint,
    /// The 1dp active indicator along the bottom edge.
    pub baseline: RolePaint,
    /// The focused indicator's color; the renderer draws it at the focus
    /// affordance's animated opacity.
    pub focus_indicator: ColorRole,
}

pub open spec fn spec_field_paints(state: InteractionState) -> FieldPaints {
    FieldPaints {
        container: if state.disabled {
            RolePaint { role: ColorRole::OnSurface, opacity: INPUT_DISABLED_CONTAINER_OPACITY }
        } else {
            solid_paint(ColorRole::SurfaceContainerHighest)
        },
        baseline: if state.disabled {
            disabled_content_paint(ColorRole::OnSurface)
        } else if state.hovered {
            solid_paint(ColorRole::OnSurface)
        } else {
            solid_paint(ColorRole::OnSurfaceVariant)
        },
        focus_indicator: ColorRole::Primary,
    }
}

/// The filled field's paints in `state`: a surface-container-highest
/// container (on-surface at 4% when disabled) and an on-surface-variant
/// indicator that turns on-surface on hover and on-surface at 38% when
/// disabled; the focused indicator is primary.
pub fn field_paints(state: InteractionState) -> (p: FieldPaints)
    ensures
        p == spec_field_paints(state),
{
    let container = if state.disabled {
        RolePaint::with_opacity(ColorRole::OnSurface, INPUT_DISABLED_CONTAINER_OPACITY)
    } else {
        RolePaint::solid(ColorRole::SurfaceContainerHighest)
    };
    let baseline = if state.disabled {
        RolePaint::disabled_content(ColorRole::OnSurface)
    } else if state.hovered {
        RolePaint::solid(ColorRole::OnSurface)
    } else {
        RolePaint::solid(ColorRole::OnSurfaceVariant)
    };
    FieldPaints { container, baseline, focus_indicator: ColorRole::Primary }
}

pub open spec fn spec_container_radii() -> CornerRadii {
    CornerRadii {
        top_left: INPUT_FILLED_CONTAINER_TOP_RADIUS,
        top_right: INPUT_FILLED_CONTAINER_TOP_RADIUS,
        bottom_right: 0,
        bottom_left: 0,
    }
}

/// The filled field's container shape (`FilledTextFieldTokens.ContainerShape`):
/// 4dp top corners, square bottom corners where the indicator line runs.
pub fn container_radii() -> (r: CornerRadii)
    ensures
        r == spec_container_radii(),
{
    CornerRadii {
        top_left: INPUT_FILLED_CONTAINER_TOP_RADIUS,
        top_right: INPUT_FILLED_CONTAINER_TOP_RADIUS,
        bottom_right: 0,
        bottom_left: 0,
    }
}

pub open spec fn spec_field_state_layer(state: InteractionState) -> Option<(RolePaint, CornerRadii)> {
    if state.hovered && !state.disabled {
        Some((
            RolePaint { role: ColorRole::OnSurface, opacity: HOVER_STATE_LAYER_OPACITY },
            spec_container_radii(),
        ))
    } else {
        None
    }
}

/// The filled field's state layer: only on hover, on-surface at the 8% hover
/// opacity (`md.comp.filled-text-field.hover.state-layer.{color,opacity}`),
/// clipped to the container's top-rounded shape; a disabled field takes none.
pub fn field_state_layer(state: InteractionState) -> (l: Option<(RolePaint, CornerRadii)>)
    ensures
        l == spec_field_state_layer(state),
{
    if state.hovered && !state.disabled {
        Some((RolePaint::with_opacity(ColorRole::OnSurface, HOVER_STATE_LAYER_OPACITY), container_radii()))
    } else {
        None
    }
}

/// A disabled field's indicator line is on-surface at 38% and its container
/// on-surface at 4%, whatever else the state says (hover, press, focus); an
/// enabled field's indicator is opaque, on-surface on hover and
/// on-surface-variant otherwise.
pub proof fn lemma_disabled_field_palette(state: InteractionState)
    ensures
        state.disabled ==> spec_field_paints(state).baseline == (RolePaint { role: ColorRole::OnSurface, opacity: 38 }),
        state.disabled ==> spec_field_paints(state).container == (RolePaint { role: ColorRole::OnSurface, opacity: 4 }),
        !state.disabled && state.hovered ==> spec_field_paints(state).baseline == (RolePaint {
            role: ColorRole::OnSurface,
            opacity: 100,
        }),
        !state.disabled && !state.hovered ==> spec_field_paints(state).baseline == (RolePaint {
            role: ColorRole::OnSurfaceVariant,
            opacity: 100,
        }),
        !state.disabled ==> spec_field_paints(state).container == (RolePaint {
            role: ColorRole::SurfaceContainerHighest,
            opacity: 100,
        }),
{
}

} // verus!
