use hydrolysis_m3::color::{ColorRole, RolePaint};
use hydrolysis_m3::controls::input;
use hydrolysis_m3::dimensions::{
    DIVIDER_THICKNESS, INPUT_FIELD_MIN_HEIGHT, INPUT_FIELD_MIN_WIDTH,
    INPUT_FILLED_ACTIVE_INDICATOR_HEIGHT, INPUT_FILLED_CONTAINER_TOP_RADIUS,
    TABLE_CELL_HORIZONTAL_PADDING, TABLE_CELL_VERTICAL_INSET, TABLE_HEADER_HEIGHT,
    TABLE_MIN_COLUMN_WIDTH, TABLE_OUTLINE_WIDTH, TABLE_ROW_HEIGHT, TABS_ACTIVE_INDICATOR_HEIGHT,
    TABS_ACTIVE_INDICATOR_RADIUS, TABS_BAR_HEIGHT, TABS_BUTTON_HORIZONTAL_INSET,
    TABS_BUTTON_MIN_WIDTH,
};
use hydrolysis_m3::layout::{badge, divider, scroll, table};
use hydrolysis_m3::navigation::tabs::{self, SeparatorEdge};
use hydrolysis_m3::state::InteractionState;

#[test]
fn filled_text_field_metrics_match_compose_filled_text_field_tokens() {
    let metrics = input::metrics();

    assert_eq!(metrics.min_height, INPUT_FIELD_MIN_HEIGHT);
    assert_eq!(metrics.min_width, INPUT_FIELD_MIN_WIDTH);
    assert_eq!(INPUT_FIELD_MIN_HEIGHT, 56);
    assert_eq!(INPUT_FIELD_MIN_WIDTH, 280);
    assert_eq!(INPUT_FILLED_CONTAINER_TOP_RADIUS, 4);
    assert_eq!(INPUT_FILLED_ACTIVE_INDICATOR_HEIGHT, 1);
}

#[test]
fn filled_text_field_caret_and_selection_use_primary_role() {
    let selection = input::selection_paint();
    assert_eq!(selection.role, ColorRole::Primary);
    assert_eq!(selection.opacity, 28);
    let paints = input::field_paints(InteractionState::none());
    assert_eq!(paints.focus_indicator, ColorRole::Primary);
}

#[test]
fn filled_text_field_paints_follow_state() {
    let mut state = InteractionState::none();
    let rest = input::field_paints(state);
    assert_eq!(rest.container, RolePaint::solid(ColorRole::SurfaceContainerHighest));
    assert_eq!(rest.baseline, RolePaint::solid(ColorRole::OnSurfaceVariant));
    state.hovered = true;
    assert_eq!(input::field_paints(state).baseline, RolePaint::solid(ColorRole::OnSurface));
    state.disabled = true;
    let disabled = input::field_paints(state);
    assert_eq!(disabled.container, RolePaint::with_opacity(ColorRole::OnSurface, 4));
    assert_eq!(disabled.baseline, RolePaint::with_opacity(ColorRole::OnSurface, 38));
    assert_eq!(input::placeholder_role(), ColorRole::OnSurfaceVariant);
}

#[test]
fn badge_metrics_match_compose_badge_tokens() {
    let metrics = badge::metrics();

    assert_eq!(metrics.small_size, 6);
    assert_eq!(metrics.large_size, 16);
    assert_eq!(metrics.large_horizontal_padding, 4);
    assert_eq!(metrics.small_offset_x, 6);
    assert_eq!(metrics.small_offset_y, 6);
    assert_eq!(metrics.large_offset_x, 12);
    assert_eq!(metrics.large_offset_y, 14);
    assert_eq!(badge::container_role(), ColorRole::Error);
    assert_eq!(badge::label_role(), ColorRole::OnError);
}

#[test]
fn divider_uses_material_tokens() {
    let metrics = divider::metrics();

    assert_eq!(metrics.thickness, DIVIDER_THICKNESS);
    assert_eq!(DIVIDER_THICKNESS, 1);
    assert_eq!(divider::role(), ColorRole::OutlineVariant);
}

/// Compose Material 3 ships no table component, so these metrics have no
/// upstream token to match.
#[test]
fn table_metrics_are_waterui_specific() {
    let metrics = table::metrics();

    assert_eq!(metrics.min_column_width, TABLE_MIN_COLUMN_WIDTH);
    assert_eq!(metrics.cell_horizontal_padding, TABLE_CELL_HORIZONTAL_PADDING);
    assert_eq!(metrics.cell_vertical_inset, TABLE_CELL_VERTICAL_INSET);
    assert_eq!(metrics.header_height, TABLE_HEADER_HEIGHT);
    assert_eq!(metrics.row_height, TABLE_ROW_HEIGHT);
    assert_eq!(metrics.outline_width, TABLE_OUTLINE_WIDTH);
    assert_eq!(TABLE_HEADER_HEIGHT, 56);
    assert_eq!(TABLE_ROW_HEIGHT, 52);
    assert_eq!(TABLE_CELL_HORIZONTAL_PADDING, 32);
    assert_eq!(TABLE_CELL_VERTICAL_INSET, 16);
    assert_eq!(TABLE_OUTLINE_WIDTH, 1);
    assert_eq!(table::background_role(), ColorRole::Surface);
    assert_eq!(table::grid_role(), ColorRole::OutlineVariant);
}

#[test]
fn primary_tab_metrics_match_compose_primary_navigation_tab_tokens() {
    let metrics = tabs::metrics();

    assert_eq!(metrics.bar_height, TABS_BAR_HEIGHT);
    assert_eq!(metrics.button_min_width, TABS_BUTTON_MIN_WIDTH);
    assert_eq!(metrics.button_horizontal_inset, TABS_BUTTON_HORIZONTAL_INSET);
    assert_eq!(metrics.active_indicator_height, TABS_ACTIVE_INDICATOR_HEIGHT);
    assert_eq!(metrics.active_indicator_radius, TABS_ACTIVE_INDICATOR_RADIUS);
    assert_eq!(TABS_BAR_HEIGHT, 48);
    assert_eq!(TABS_BUTTON_MIN_WIDTH, 48);
    assert_eq!(TABS_BUTTON_HORIZONTAL_INSET, 16);
    assert_eq!(TABS_ACTIVE_INDICATOR_HEIGHT, 3);
    assert_eq!(TABS_ACTIVE_INDICATOR_RADIUS, 3);
}

#[test]
fn tab_chrome_roles() {
    assert_eq!(tabs::separator_edge(true), SeparatorEdge::Bottom);
    assert_eq!(tabs::separator_edge(false), SeparatorEdge::Top);
    assert_eq!(tabs::bar_roles(), (ColorRole::Surface, ColorRole::SurfaceVariant));
    let (role, radii) = tabs::highlight();
    assert_eq!(role, ColorRole::Primary);
    assert_eq!((radii.top_left, radii.top_right, radii.bottom_right, radii.bottom_left), (3, 3, 0, 0));
    assert_eq!(tabs::button_state_layer_role(true, false), ColorRole::Primary);
    assert_eq!(tabs::button_state_layer_role(false, true), ColorRole::Primary);
    assert_eq!(tabs::button_state_layer_role(false, false), ColorRole::OnSurface);
}

#[test]
fn scroll_indicator_is_on_surface_variant_at_55() {
    assert_eq!(
        scroll::indicator_paint(),
        RolePaint::with_opacity(ColorRole::OnSurfaceVariant, 55)
    );
}

#[test]
fn filled_text_field_hover_layer_is_on_surface_8_top_rounded() {
    let top = input::container_radii();
    assert_eq!((top.top_left, top.top_right, top.bottom_right, top.bottom_left), (4, 4, 0, 0));
    let hovered = InteractionState { hovered: true, ..InteractionState::none() };
    assert_eq!(
        input::field_state_layer(hovered),
        Some((RolePaint::with_opacity(ColorRole::OnSurface, 8), top))
    );
    assert_eq!(input::field_state_layer(InteractionState::none()), None);
    let pressed = InteractionState { pressed: true, focus_visible: true, ..InteractionState::none() };
    assert_eq!(input::field_state_layer(pressed), None);
    let disabled_hover = InteractionState { disabled: true, hovered: true, ..InteractionState::none() };
    assert_eq!(input::field_state_layer(disabled_hover), None);
}
