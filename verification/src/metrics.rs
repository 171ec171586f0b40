//! Layout metrics the theme hands the renderer, in whole dp.
use vstd::prelude::*;

verus! {

/// Button layout metrics.
#[derive(Debug, Clone, Copy, PartialEq, Eq, Structural)]
pub struct ButtonMetrics {
    pub padding_x: u32,
    pub padding_y: u32,
    pub min_width: u32,
    pub min_height: u32,
}

/// Toggle layout metrics.
#[derive(Debug, Clone, Copy, PartialEq, Eq, Structural)]
pub struct ToggleMetrics {
    pub width: u32,
    pub height: u32,
    pub label_spacing: u32,
}

/// Text input layout metrics.
#[derive(Debug, Clone, Copy, PartialEq, Eq, Structural)]
pub struct InputFieldMetrics {
    pub label_height: u32,
    pub min_width: u32,
    pub min_height: u32,
    pub horizontal_inset: u32,
    pub vertical_inset: u32,
}

/// Picker layout metrics.
#[derive(Debug, Clone, Copy, PartialEq, Eq, Structural)]
pub struct PickerMetrics {
    pub min_width: u32,
    pub min_height: u32,
    pub horizontal_inset: u32,
    pub vertical_inset: u32,
    pub label_spacing: u32,
    pub indicator_space: u32,
    pub radio_indicator_size: u32,
    pub radio_label_spacing: u32,
    pub radio_row_spacing: u32,
    pub popup_top_spacing: u32,
    pub popup_row_height: u32,
    pub popup_corner_radius: u32,
    /// Minimum width of one segment; zero for non-segmented styles.
    pub segment_min_width: u32,
}

/// Slider layout metrics.
#[derive(Debug, Clone, Copy, PartialEq, Eq, Structural)]
pub struct SliderMetrics {
    pub horizontal_inset: u32,
    pub horizontal_spacing: u32,
    pub vertical_spacing: u32,
    pub min_track_width: u32,
    pub track_height: u32,
    pub handle_width: u32,
    pub handle_height: u32,
}

/// Tab bar layout metrics.
#[derive(Debug, Clone, Copy, PartialEq, Eq, Structural)]
pub struct TabsMetrics {
    pub bar_height: u32,
    pub button_min_width: u32,
    pub button_horizontal_inset: u32,
    pub active_indicator_height: u32,
    pub active_indicator_radius: u32,
}

/// Table layout metrics.
#[derive(Debug, Clone, Copy, PartialEq, Eq, Structural)]
pub struct TableMetrics {
    pub min_column_width: u32,
    pub cell_horizontal_padding: u32,
    pub cell_vertical_inset: u32,
    pub header_height: u32,
    pub row_height: u32,
    pub outline_width: u32,
}

/// Divider layout metrics.
#[derive(Debug, Clone, Copy, PartialEq, Eq, Structural)]
pub struct DividerMetrics {
    pub thickness: u32,
}

/// Badge layout metrics.
#[derive(Debug, Clone, Copy, PartialEq, Eq, Structural)]
pub struct BadgeMetrics {
    pub small_size: u32,
    pub large_size: u32,
    pub large_horizontal_padding: u32,
    pub small_offset_x: u32,
    pub small_offset_y: u32,
    pub large_offset_x: u32,
    pub large_offset_y: u32,
}

/// Four corner radii, clockwise from the top-left corner.
#[derive(Debug, Clone, Copy, PartialEq, Eq, Structural)]
pub struct CornerRadii {
    pub top_left: u32,
    pub top_right: u32,
    pub bottom_right: u32,
    pub bottom_left: u32,
}

} // verus!
