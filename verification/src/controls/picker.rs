//! Material 3 pickers: the filled-select menu, the radio group and the
//! segmented button.
use vstd::prelude::*;
use crate::color::{BlendPaint, ColorRole, RolePaint, solid_paint};
use crate::dimensions::{
    PICKER_HORIZONTAL_INSET, PICKER_INDICATOR_SPACE, PICKER_LABEL_SPACING, PICKER_MENU_MIN_WIDTH,
    PICKER_MENU_POPUP_CORNER_RADIUS, PICKER_MENU_POPUP_ROW_HEIGHT, PICKER_MENU_POPUP_TOP_SPACING,
    PICKER_MIN_HEIGHT, PICKER_RADIO_INDICATOR_SIZE, PICKER_RADIO_LABEL_SPACING,
    PICKER_RADIO_MIN_WIDTH, PICKER_RADIO_ROW_SPACING, PICKER_SEGMENTED_CONTAINER_RADIUS,
    PICKER_SEGMENTED_HORIZONTAL_INSET, PICKER_SEGMENTED_MIN_HEIGHT, PICKER_SEGMENTED_MIN_WIDTH,
    PICKER_SEGMENTED_OUTLINE_WIDTH, PICKER_VERTICAL_INSET, INPUT_FILLED_CONTAINER_TOP_RADIUS,
};
use crate::metrics::{CornerRadii, PickerMetrics};

verus! {

/// The picker styles this theme draws.
#[derive(Debug, Clone, Copy, PartialEq, Eq, Structural)]
pub enum PickerStyle {
    /// The theme's default: the menu picker.
    Automatic,
    /// A filled-select field that opens a menu.
    Menu,
    /// A radio-button group.
    Radio,
    /// A segmented button.
    Segmented,
}

pub open spec fn spec_menu_metrics() -> PickerMetrics {
    PickerMetrics {
        min_width: PICKER_MENU_MIN_WIDTH,
        min_height: PICKER_MIN_HEIGHT,
        horizontal_inset: PICKER_HORIZONTAL_INSET,
        vertical_inset: PICKER_VERTICAL_INSET,
        label_spacing: PICKER_LABEL_SPACING,
        indicator_space: PICKER_INDICATOR_SPACE,
        radio_indicator_size: PICKER_RADIO_INDICATOR_SIZE,
        radio_label_spacing: PICKER_RADIO_LABEL_SPACING,
        radio_row_spacing: PICKER_RADIO_ROW_SPACING,
        popup_top_spacing: PICKER_MENU_POPUP_TOP_SPACING,
        popup_row_height: PICKER_MENU_POPUP_ROW_HEIGHT,
        popup_corner_radius: PICKER_MENU_POPUP_CORNER_RADIUS,
        segment_min_width: 0,
    }
}

pub open spec fn spec_radio_metrics() -> PickerMetrics {
    PickerMetrics { min_width: PICKER_RADIO_MIN_WIDTH, ..spec_menu_metrics() }
}

pub open spec fn spec_segmented_metrics() -> PickerMetrics {
    PickerMetrics {
        min_width: PICKER_SEGMENTED_MIN_WIDTH,
        min_height: PICKER_SEGMENTED_MIN_HEIGHT,
        horizontal_inset: PICKER_SEGMENTED_HORIZONTAL_INSET,
        vertical_inset: 0,
        indicator_space: 0,
        segment_min_width: PICKER_SEGMENTED_MIN_WIDTH,
        ..spec_menu_metrics()
    }
}

pub open spec fn spec_metrics(style: PickerStyle) -> PickerMetrics {
    match style {
        PickerStyle::Automatic | PickerStyle::Menu => spec_menu_metrics(),
        PickerStyle::Radio => spec_radio_metrics(),
        PickerStyle::Segmented => spec_segmented_metrics(),
    }
}

/// Layout metrics of a picker of `style`; `Automatic` is the menu picker.
pub fn metrics(style: PickerStyle) -> (m: PickerMetrics)
    ensures
        m == spec_metrics(style),
{
    match style {
        PickerStyle::Automatic | PickerStyle::Menu => menu_metrics(),
        PickerStyle::Radio => radio_metrics(),
        PickerStyle::Segmented => segmented_metrics(),
    }
}

/// The menu picker: filled text-field chrome, so `ExposedDropdownMenuBox`'s
/// 280dp `TextFieldDefaults.MinWidth`, with 48dp menu rows in a 4dp-cornered
/// popup.
pub fn menu_metrics() -> (m: PickerMetrics)
    ensures
        m == spec_menu_metrics(),
{
    PickerMetrics {
        min_width: PICKER_MENU_MIN_WIDTH,
        min_height: PICKER_MIN_HEIGHT,
        horizontal_inset: PICKER_HORIZONTAL_INSET,
        vertical_inset: PICKER_VERTICAL_INSET,
        label_spacing: PICKER_LABEL_SPACING,
        indicator_space: PICKER_INDICATOR_SPACE,
        radio_indicator_size: PICKER_RADIO_INDICATOR_SIZE,
        radio_label_spacing: PICKER_RADIO_LABEL_SPACING,
        radio_row_spacing: PICKER_RADIO_ROW_SPACING,
        popup_top_spacing: PICKER_MENU_POPUP_TOP_SPACING,
        popup_row_height: PICKER_MENU_POPUP_ROW_HEIGHT,
        popup_corner_radius: PICKER_MENU_POPUP_CORNER_RADIUS,
        segment_min_width: 0,
    }
}

/// The radio group: the menu metrics with the radio group's 72dp minimum
/// width.
pub fn radio_metrics() -> (m: PickerMetrics)
    ensures
        m == spec_radio_metrics(),
{
    PickerMetrics {
        min_width: PICKER_RADIO_MIN_WIDTH,
        min_height: PICKER_MIN_HEIGHT,
        horizontal_inset: PICKER_HORIZONTAL_INSET,
        vertical_inset: PICKER_VERTICAL_INSET,
        label_spacing: PICKER_LABEL_SPACING,
        indicator_space: PICKER_INDICATOR_SPACE,
        radio_indicator_size: PICKER_RADIO_INDICATOR_SIZE,
        radio_label_spacing: PICKER_RADIO_LABEL_SPACING,
        radio_row_spacing: PICKER_RADIO_ROW_SPACING,
        popup_top_spacing: PICKER_MENU_POPUP_TOP_SPACING,
        popup_row_height: PICKER_MENU_POPUP_ROW_HEIGHT,
        popup_corner_radius: PICKER_MENU_POPUP_CORNER_RADIUS,
        segment_min_width: 0,
    }
}

/// The segmented button: 40dp tall with a 58dp minimum per segment, no
/// vertical inset and no indicator.
pub fn segmented_metrics() -> (m: PickerMetrics)
    ensures
        m == spec_segmented_metrics(),
{
    PickerMetrics {
        min_width: PICKER_SEGMENTED_MIN_WIDTH,
        min_height: PICKER_SEGMENTED_MIN_HEIGHT,
        horizontal_inset: PICKER_SEGMENTED_HORIZONTAL_INSET,
        vertical_inset: 0,
        label_spacing: PICKER_LABEL_SPACING,
        indicator_space: 0,
        radio_indicator_size: PICKER_RADIO_INDICATOR_SIZE,
        radio_label_spacing: PICKER_RADIO_LABEL_SPACING,
        radio_row_spacing: PICKER_RADIO_ROW_SPACING,
        popup_top_spacing: PICKER_MENU_POPUP_TOP_SPACING,
        popup_row_height: PICKER_MENU_POPUP_ROW_HEIGHT,
        popup_corner_radius: PICKER_MENU_POPUP_CORNER_RADIUS,
        segment_min_width: PICKER_SEGMENTED_MIN_WIDTH,
    }
}

/// The dropdown chevron of the menu picker: on-surface-variant.
pub fn indicator_role() -> (r: ColorRole)
    ensures
        r == ColorRole::OnSurfaceVariant,
{
    ColorRole::OnSurfaceVariant
}

/// The menu popup's container: surface-container (`MenuTokens.ContainerColor`).
pub fn popup_container_role() -> (r: ColorRole)
    ensures
        r == ColorRole::SurfaceContainer,
{
    ColorRole::SurfaceContainer
}

/// The fill behind a menu row: the selected row sits on
/// surface-container-highest
/// (`md.comp.filled-select.menu.list-item.selected.container.color`); other
/// rows have none.
pub fn popup_row_background(selected: bool) -> (p: Option<RolePaint>)
    ensures
        p == (if selected { Some(solid_paint(ColorRole::SurfaceContainerHighest)) } else { None }),
{
    if selected {
        Some(RolePaint::solid(ColorRole::SurfaceContainerHighest))
    } else {
        None
    }
}

pub open spec fn spec_selected_layer_role(selected: bool) -> ColorRole {
    if selected {
        ColorRole::OnSecondaryContainer
    } else {
        ColorRole::OnSurface
    }
}

/// The state-layer color of a menu row: on-surface in every state, over the
/// selected row and the others alike
/// (`md.comp.filled-select.menu.list-item.*.state-layer.color`).
pub fn popup_row_state_layer_role(selected: bool) -> (r: ColorRole)
    ensures
        r == ColorRole::OnSurface,
{
    ColorRole::OnSurface
}

/// The select field's state layer: on-surface, clipped to the filled field's
/// top-rounded container shape (4, 4, 0, 0)
/// (`md.comp.filled-select.text-field.container.shape`).
pub fn select_field_state_layer() -> (l: (ColorRole, CornerRadii))
    ensures
        l == (ColorRole::OnSurface, CornerRadii {
            top_left: INPUT_FILLED_CONTAINER_TOP_RADIUS,
            top_right: INPUT_FILLED_CONTAINER_TOP_RADIUS,
            bottom_right: 0,
            bottom_left: 0,
        }),
{
    (
        ColorRole::OnSurface,
        CornerRadii {
            top_left: INPUT_FILLED_CONTAINER_TOP_RADIUS,
            top_right: INPUT_FILLED_CONTAINER_TOP_RADIUS,
            bottom_right: 0,
            bottom_left: 0,
        },
    )
}

/// The menu's row separator: outline-variant.
pub fn separator_role() -> (r: ColorRole)
    ensures
        r == ColorRole::OutlineVariant,
{
    ColorRole::OutlineVariant
}

/// The paints of a radio indicator.
#[derive(Debug, Clone, Copy, PartialEq, Eq, Structural)]
pub struct RadioPaints {
    /// The outer ring, from unselected to selected as the selection animates.
    pub ring: BlendPaint,
    /// The inner dot, which the renderer scales and fades in.
    pub dot: RolePaint,
}

pub open spec fn spec_radio_paints() -> RadioPaints {
    RadioPaints {
        ring: BlendPaint {
            from: solid_paint(ColorRole::OnSurfaceVariant),
            to: solid_paint(ColorRole::Primary),
        },
        dot: solid_paint(ColorRole::Primary),
    }
}

/// The radio indicator's paints (`RadioButtonTokens`): an on-surface-variant
/// ring turning primary with the selection, and a primary dot.
pub fn radio_paints() -> (p: RadioPaints)
    ensures
        p == spec_radio_paints(),
{
    RadioPaints {
        ring: BlendPaint {
            from: RolePaint::solid(ColorRole::OnSurfaceVariant),
            to: RolePaint::solid(ColorRole::Primary),
        },
        dot: RolePaint::solid(ColorRole::Primary),
    }
}

/// The radio indicator's state-layer halo radius: 20dp
/// (`RadioButtonTokens.StateLayerSize` is 40dp).
pub const RADIO_STATE_LAYER_RADIUS: u32 = 20;

/// The radio indicator's state-layer halo: primary around a selected option,
/// on-surface otherwise.
pub fn radio_state_layer_role(selected: bool) -> (r: ColorRole)
    ensures
        r == (if selected { ColorRole::Primary } else { ColorRole::OnSurface }),
{
    if selected {
        ColorRole::Primary
    } else {
        ColorRole::OnSurface
    }
}

/// A segment's label: on-secondary-container when selected, on-surface
/// otherwise.
pub fn segmented_label_role(selected: bool) -> (r: ColorRole)
    ensures
        r == spec_selected_layer_role(selected),
{
    if selected {
        ColorRole::OnSecondaryContainer
    } else {
        ColorRole::OnSurface
    }
}

/// The outline of a segmented button and the separators between its
/// segments.
#[derive(Debug, Clone, Copy, PartialEq, Eq, Structural)]
pub struct SegmentedContainer {
    /// The stroke color of the outline and the separators.
    pub outline: RolePaint,
    /// The stroke width of the outline and the separators, in dp.
    pub outline_width: u32,
    /// The full-round corner radius of the outline.
    pub corner_radius: u32,
    /// How many separator lines divide the segments.
    pub separators: usize,
}

pub open spec fn spec_segmented_container(segment_count: usize) -> SegmentedContainer {
    SegmentedContainer {
        outline: solid_paint(ColorRole::Outline),
        outline_width: PICKER_SEGMENTED_OUTLINE_WIDTH,
        corner_radius: PICKER_SEGMENTED_CONTAINER_RADIUS,
        separators: if segment_count <= 1 { 0 } else { (segment_count - 1) as usize },
    }
}

/// The container of a segmented button with `segment_count` segments: an
/// outline-colored stroke around the group and one separator between each
/// pair of neighbouring segments, at equal widths.
pub fn segmented_container(segment_count: usize) -> (c: SegmentedContainer)
    ensures
        c == spec_segmented_container(segment_count),
{
    let separators = if segment_count <= 1 {
        0
    } else {
        segment_count - 1
    };
    SegmentedContainer {
        outline: RolePaint::solid(ColorRole::Outline),
        outline_width: PICKER_SEGMENTED_OUTLINE_WIDTH,
        corner_radius: PICKER_SEGMENTED_CONTAINER_RADIUS,
        separators,
    }
}

pub open spec fn spec_segment_radii(is_first: bool, is_last: bool) -> CornerRadii {
    let r = PICKER_SEGMENTED_CONTAINER_RADIUS;
    CornerRadii {
        top_left: if is_first { r } else { 0 },
        top_right: if is_last { r } else { 0 },
        bottom_right: if is_last { r } else { 0 },
        bottom_left: if is_first { r } else { 0 },
    }
}

/// One segment's item shape, per Compose `itemShape(index, count)`: only the
/// outside edge of each end segment takes the group's full rounding — the
/// first item rounds its leading corners, the last its trailing corners, and
/// middle items stay square against the separator strokes.
pub fn segment_radii(is_first: bool, is_last: bool) -> (r: CornerRadii)
    ensures
        r == spec_segment_radii(is_first, is_last),
{
    let radius = PICKER_SEGMENTED_CONTAINER_RADIUS;
    match (is_first, is_last) {
        (true, true) => CornerRadii {
            top_left: radius,
            top_right: radius,
            bottom_right: radius,
            bottom_left: radius,
        },
        (true, false) => CornerRadii {
            top_left: radius,
            top_right: 0,
            bottom_right: 0,
            bottom_left: radius,
        },
        (false, true) => CornerRadii {
            top_left: 0,
            top_right: radius,
            bottom_right: radius,
            bottom_left: 0,
        },
        (false, false) => CornerRadii { top_left: 0, top_right: 0, bottom_right: 0, bottom_left: 0 },
    }
}

/// The fill of a segment: the selected segment is secondary-container; the
/// others are unfilled.
pub fn segment_fill(selected: bool) -> (p: Option<RolePaint>)
    ensures
        p == (if selected { Some(solid_paint(ColorRole::SecondaryContainer)) } else { None }),
{
    if selected {
        Some(RolePaint::solid(ColorRole::SecondaryContainer))
    } else {
        None
    }
}

/// The state-layer color of a segment: on-secondary-container over the
/// selected segment, on-surface otherwise.
pub fn segmented_state_layer_role(selected: bool) -> (r: ColorRole)
    ensures
        r == spec_selected_layer_role(selected),
{
    if selected {
        ColorRole::OnSecondaryContainer
    } else {
        ColorRole::OnSurface
    }
}

/// A segment's shape mirrors when the group is read from the other end: the
/// leading corners of a first segment are the trailing corners of a last one.
pub proof fn lemma_segment_radii_mirror(is_first: bool, is_last: bool)
    ensures
        spec_segment_radii(is_first, is_last).top_left == spec_segment_radii(is_last, is_first).top_right,
        spec_segment_radii(is_first, is_last).bottom_left == spec_segment_radii(is_last, is_first).bottom_right,
{
}

/// Only outside edges round: a segment with neighbours on both sides is
/// square, and each corner is either square or the group's full radius.
pub proof fn lemma_only_outside_edges_round(is_first: bool, is_last: bool)
    ensures
        !is_first && !is_last ==> spec_segment_radii(is_first, is_last) == (CornerRadii {
            top_left: 0,
            top_right: 0,
            bottom_right: 0,
            bottom_left: 0,
        }),
        spec_segment_radii(is_first, is_last).top_left == spec_segment_radii(is_first, is_last).bottom_left,
        spec_segment_radii(is_first, is_last).top_right == spec_segment_radii(is_first, is_last).bottom_right,
        (spec_segment_radii(is_first, is_last).top_left > 0) == is_first,
        (spec_segment_radii(is_first, is_last).top_right > 0) == is_last,
{
}

/// A picker with several segments draws one separator fewer than it has
/// segments.
pub proof fn lemma_separators_fall_between_segments(segment_count: usize)
    requires
        segment_count >= 1,
    ensures
        spec_segmented_container(segment_count).separators + 1 == segment_count,
{
}

/// The radio group and the menu share everything but the minimum width, and
/// the menu is as wide as a filled text field.
pub proof fn lemma_radio_is_the_menu_at_radio_width()
    ensures
        spec_radio_metrics() == (PickerMetrics { min_width: PICKER_RADIO_MIN_WIDTH, ..spec_menu_metrics() }),
        spec_menu_metrics().min_width == crate::dimensions::INPUT_FIELD_MIN_WIDTH,
{
}

} // verus!
