use hydrolysis_m3::color::{BlendPaint, ColorRole, RolePaint};
use hydrolysis_m3::controls::picker::{
    indicator_role, menu_metrics, metrics, popup_container_role, popup_row_background,
    popup_row_state_layer_role, radio_metrics, radio_paints, radio_state_layer_role, segment_fill,
    segment_radii, segmented_container, segmented_label_role, segmented_metrics,
    segmented_state_layer_role, select_field_state_layer, separator_role, PickerStyle,
    RADIO_STATE_LAYER_RADIUS,
};
use hydrolysis_m3::dimensions::{
    PICKER_LABEL_SPACING, PICKER_MENU_POPUP_CORNER_RADIUS, PICKER_MENU_POPUP_ROW_HEIGHT,
    PICKER_RADIO_INDICATOR_SIZE, PICKER_RADIO_INNER_DOT_RADIUS, PICKER_RADIO_OUTER_RING_WIDTH,
    PICKER_SEGMENTED_CONTAINER_RADIUS, PICKER_SEGMENTED_HORIZONTAL_INSET,
    PICKER_SEGMENTED_MIN_HEIGHT,
};
use hydrolysis_m3::metrics::CornerRadii;

fn radii(top_left: u32, top_right: u32, bottom_right: u32, bottom_left: u32) -> CornerRadii {
    CornerRadii { top_left, top_right, bottom_right, bottom_left }
}

/// Values from `androidx.compose.material3.tokens.RadioButtonTokens` and the
/// private dimensions in `RadioButton.kt`.
#[test]
fn radio_metrics_match_compose_radio_tokens() {
    let metrics = radio_metrics();

    assert_eq!(metrics.radio_indicator_size, PICKER_RADIO_INDICATOR_SIZE);
    assert_eq!(metrics.label_spacing, PICKER_LABEL_SPACING);
    assert_eq!(PICKER_RADIO_INDICATOR_SIZE, 20);
    assert_eq!(PICKER_RADIO_OUTER_RING_WIDTH, 2);
    // RadioButtonDotSize is 12dp across, so half of it here.
    assert_eq!(PICKER_RADIO_INNER_DOT_RADIUS, 6);
    assert_eq!(metrics.popup_row_height, PICKER_MENU_POPUP_ROW_HEIGHT);
    assert_eq!(metrics.popup_corner_radius, PICKER_MENU_POPUP_CORNER_RADIUS);
    assert_eq!(PICKER_MENU_POPUP_ROW_HEIGHT, 48);
    assert_eq!(PICKER_MENU_POPUP_CORNER_RADIUS, 4);
}

#[test]
fn menu_selected_row_and_divider_use_filled_select_tokens() {
    assert_eq!(
        popup_row_background(true),
        Some(RolePaint::solid(ColorRole::SurfaceContainerHighest))
    );
    assert_eq!(separator_role(), ColorRole::OutlineVariant);
    assert_eq!(popup_row_background(false), None);
}

#[test]
fn menu_picker_min_width_matches_text_field() {
    // The menu style is filled-TextField chrome; `ExposedDropdownMenuBox`
    // inherits `TextFieldDefaults.MinWidth` = 280dp.
    assert_eq!(menu_metrics().min_width, 280);
    assert_eq!(radio_metrics().min_width, 72);
}

#[test]
fn segmented_metrics_match_compose_segmented_button_tokens() {
    let metrics = segmented_metrics();

    assert_eq!(metrics.min_height, PICKER_SEGMENTED_MIN_HEIGHT);
    assert_eq!(metrics.horizontal_inset, PICKER_SEGMENTED_HORIZONTAL_INSET);
    assert_eq!(metrics.segment_min_width, 58);
    assert_eq!(PICKER_SEGMENTED_MIN_HEIGHT, 40);
    assert_eq!(PICKER_SEGMENTED_CONTAINER_RADIUS, 20);
}

/// Compose `itemShape(index, count)`: only the outside edge of each end
/// segment rounds; middle segments are square.
#[test]
fn segmented_item_shape_rounds_only_the_outside_edge() {
    let radius = PICKER_SEGMENTED_CONTAINER_RADIUS;
    let zero = radii(0, 0, 0, 0);

    assert_eq!(segment_radii(true, false), radii(radius, 0, 0, radius));
    assert_eq!(segment_radii(false, true), radii(0, radius, radius, 0));
    assert_eq!(segment_radii(false, false), zero);
    assert_eq!(segment_radii(true, true), radii(radius, radius, radius, radius));
}

#[test]
fn segmented_container_and_selected_segment_use_material_tokens() {
    assert_eq!(
        segment_fill(true),
        Some(RolePaint::solid(ColorRole::SecondaryContainer))
    );
    assert_eq!(segment_radii(false, false), radii(0, 0, 0, 0));
    let container = segmented_container(3);
    assert_eq!(container.outline, RolePaint::solid(ColorRole::Outline));
    assert_eq!(container.outline_width, 1);
    assert_eq!(container.separators, 2);
}

#[test]
fn segmented_container_draws_no_separator_for_one_segment() {
    assert_eq!(segmented_container(0).separators, 0);
    assert_eq!(segmented_container(1).separators, 0);
    assert_eq!(segmented_container(5).separators, 4);
    assert_eq!(segmented_container(1).corner_radius, 20);
    assert_eq!(segment_fill(false), None);
}

#[test]
fn picker_style_metrics() {
    assert_eq!(metrics(PickerStyle::Automatic), menu_metrics());
    assert_eq!(metrics(PickerStyle::Menu), menu_metrics());
    assert_eq!(metrics(PickerStyle::Radio), radio_metrics());
    assert_eq!(metrics(PickerStyle::Segmented), segmented_metrics());
    assert_eq!(menu_metrics().segment_min_width, 0);
    assert_eq!(segmented_metrics().vertical_inset, 0);
    assert_eq!(segmented_metrics().indicator_space, 0);
}

#[test]
fn picker_roles_follow_selection() {
    assert_eq!(indicator_role(), ColorRole::OnSurfaceVariant);
    assert_eq!(popup_container_role(), ColorRole::SurfaceContainer);
    assert_eq!(popup_row_state_layer_role(true), ColorRole::OnSurface);
    assert_eq!(popup_row_state_layer_role(false), ColorRole::OnSurface);
    assert_eq!(radio_state_layer_role(true), ColorRole::Primary);
    assert_eq!(radio_state_layer_role(false), ColorRole::OnSurface);
    assert_eq!(segmented_label_role(true), ColorRole::OnSecondaryContainer);
    assert_eq!(segmented_label_role(false), ColorRole::OnSurface);
    assert_eq!(segmented_state_layer_role(true), ColorRole::OnSecondaryContainer);
    assert_eq!(segmented_state_layer_role(false), ColorRole::OnSurface);
}

#[test]
fn select_field_layer_is_on_surface_top_rounded() {
    let (role, corners) = select_field_state_layer();
    assert_eq!(role, ColorRole::OnSurface);
    assert_eq!(corners, radii(4, 4, 0, 0));
    assert_eq!(RADIO_STATE_LAYER_RADIUS, 20);
}

#[test]
fn radio_ring_turns_primary_and_dot_is_primary() {
    let paints = radio_paints();
    assert_eq!(
        paints.ring,
        BlendPaint {
            from: RolePaint::solid(ColorRole::OnSurfaceVariant),
            to: RolePaint::solid(ColorRole::Primary),
        }
    );
    assert_eq!(paints.dot, RolePaint::solid(ColorRole::Primary));
}
