use hydrolysis_m3::color::{BlendPaint, ColorRole, RolePaint};
use hydrolysis_m3::controls::toggle::{
    checkbox_paints, checkbox_state_layer_role, metrics, switch_handle, switch_paints,
    switch_state_layer_role, switch_thumb_elevation, switch_thumb_rest_inset, SwitchHandle, ThumbPaint, ToggleStyle,
};
use hydrolysis_m3::dimensions::{
    TOGGLE_CHECKBOX_SIZE, TOGGLE_LABEL_SPACING, TOGGLE_SWITCH_PRESSED_HANDLE_SIZE,
};
use hydrolysis_m3::state::InteractionState;

fn disabled() -> InteractionState {
    InteractionState { disabled: true, ..InteractionState::none() }
}

#[test]
fn toggle_metrics_include_material_label_spacing() {
    let metrics = metrics(ToggleStyle::Switch);

    assert_eq!(metrics.label_spacing, TOGGLE_LABEL_SPACING);
    assert_eq!(TOGGLE_LABEL_SPACING, 8);
}

#[test]
fn toggle_metrics_per_style() {
    assert_eq!(metrics(ToggleStyle::Automatic), metrics(ToggleStyle::Switch));
    let switch = metrics(ToggleStyle::Switch);
    assert_eq!((switch.width, switch.height), (52, 32));
    let checkbox = metrics(ToggleStyle::Checkbox);
    assert_eq!((checkbox.width, checkbox.height), (TOGGLE_CHECKBOX_SIZE, TOGGLE_CHECKBOX_SIZE));
}

/// The thumb sits in a 24dp slot at each end regardless of the size it
/// draws at, 4 + 12 = 16dp from either edge of the 52dp track.
#[test]
fn switch_thumb_rests_at_compose_centers() {
    let inset = switch_thumb_rest_inset();
    let (x0, x1, height) = (0, 52, 32);
    assert_eq!((x0 + inset, height / 2), (16, 16));
    assert_eq!((x1 - inset, height / 2), (36, 16));
}

#[test]
fn disabled_material_switch_uses_disabled_palette() {
    let unchecked = switch_paints(disabled(), false);
    assert_eq!(
        unchecked.track,
        BlendPaint {
            from: RolePaint::with_opacity(ColorRole::SurfaceContainerHighest, 12),
            to: RolePaint::with_opacity(ColorRole::OnSurface, 12),
        },
        "disabled unchecked track drops to surface-container-highest at 12%"
    );
    assert_eq!(
        unchecked.outline,
        RolePaint::with_opacity(ColorRole::OnSurface, 12),
        "disabled unchecked outline drops to on-surface at 12%"
    );
    assert_eq!(
        unchecked.thumb,
        ThumbPaint::Blend(BlendPaint {
            from: RolePaint::with_opacity(ColorRole::OnSurface, 38),
            to: RolePaint::solid(ColorRole::Surface),
        }),
        "disabled unchecked thumb drops to on-surface at 38%"
    );
    let checked = switch_paints(disabled(), true);
    assert_eq!(checked.track, unchecked.track, "disabled checked track drops to on-surface at 12%");
    assert_eq!(checked.thumb, unchecked.thumb, "disabled checked thumb is the opaque surface color");
    assert_eq!(checked.icon, RolePaint::with_opacity(ColorRole::OnSurface, 38));
}

#[test]
fn enabled_switch_palette() {
    let rest = switch_paints(InteractionState::none(), true);
    assert_eq!(
        rest.track,
        BlendPaint {
            from: RolePaint::solid(ColorRole::SurfaceContainerHighest),
            to: RolePaint::solid(ColorRole::Primary),
        }
    );
    assert_eq!(rest.outline, RolePaint::solid(ColorRole::Outline));
    assert_eq!(
        rest.thumb,
        ThumbPaint::Blend(BlendPaint {
            from: RolePaint::solid(ColorRole::Outline),
            to: RolePaint::solid(ColorRole::OnPrimary),
        })
    );
    assert_eq!(rest.icon, RolePaint::solid(ColorRole::OnPrimaryContainer));
    let hovered = InteractionState { hovered: true, ..InteractionState::none() };
    assert_eq!(
        switch_paints(hovered, true).thumb,
        ThumbPaint::Solid(RolePaint::solid(ColorRole::PrimaryContainer))
    );
    assert_eq!(
        switch_paints(hovered, false).thumb,
        ThumbPaint::Solid(RolePaint::solid(ColorRole::OnSurfaceVariant))
    );
    assert_eq!(switch_state_layer_role(true), ColorRole::Primary);
    assert_eq!(switch_state_layer_role(false), ColorRole::OnSurface);
}

#[test]
fn disabled_material_checkbox_uses_disabled_palette() {
    let paints = checkbox_paints(true);
    assert_eq!(
        paints.outline,
        RolePaint::with_opacity(ColorRole::OnSurface, 38),
        "disabled unchecked outline drops to on-surface at 38%"
    );
    assert_eq!(
        paints.container,
        RolePaint::with_opacity(ColorRole::OnSurface, 38),
        "disabled checked container drops to on-surface at 38%"
    );
    assert_eq!(paints.check, RolePaint::solid(ColorRole::Surface));
}

#[test]
fn enabled_checkbox_palette() {
    let paints = checkbox_paints(false);
    assert_eq!(paints.outline, RolePaint::solid(ColorRole::OnSurfaceVariant));
    assert_eq!(paints.container, RolePaint::solid(ColorRole::Primary));
    assert_eq!(paints.check, RolePaint::solid(ColorRole::OnPrimary));
    assert_eq!(checkbox_state_layer_role(true), ColorRole::Primary);
    assert_eq!(checkbox_state_layer_role(false), ColorRole::OnSurface);
}

#[test]
fn pressed_material_switch_uses_large_handle() {
    assert_eq!(switch_handle(true), SwitchHandle::Fixed(TOGGLE_SWITCH_PRESSED_HANDLE_SIZE));
    assert_eq!(TOGGLE_SWITCH_PRESSED_HANDLE_SIZE / 2, 14);
    assert_eq!(switch_handle(false), SwitchHandle::Grow { from: 16, to: 24 });
}

#[test]
fn switch_thumb_is_raised_only_when_enabled() {
    assert_eq!(switch_thumb_elevation(false), 1);
    assert_eq!(switch_thumb_elevation(true), 0);
}
