//! Material Design 3 dimension tokens, in whole dp.
use vstd::prelude::*;
use crate::controls::button::ButtonSize;

verus! {

// ---- Shape ----
/// `md.sys.shape.corner-small`.
pub const SHAPE_CORNER_SMALL: u32 = 8;
/// `md.sys.shape.corner-medium`.
pub const SHAPE_CORNER_MEDIUM: u32 = 12;
/// `md.sys.shape.corner-large`.
pub const SHAPE_CORNER_LARGE: u32 = 16;

// ---- Buttons ----
/// `ButtonDefaults.MinWidth`.
pub const BUTTON_MIN_WIDTH: u32 = 58;
/// `ButtonDefaults.ContentPadding` vertical.
pub const BUTTON_TEXT_VERTICAL_PADDING: u32 = 8;
/// Horizontal padding of a link button, which has no container.
pub const BUTTON_LINK_HORIZONTAL_PADDING: u32 = 4;
/// Vertical padding of a link button.
pub const BUTTON_LINK_VERTICAL_PADDING: u32 = 2;
/// Distance of a link's underline above the bottom of its bounds.
pub const BUTTON_LINK_UNDERLINE_BOTTOM_INSET: u32 = 2;
/// Thickness of a link's underline.
pub const BUTTON_LINK_UNDERLINE_THICKNESS: u32 = 1;

/// The geometry of one button size (`md.comp.button.<size>.*`).
#[derive(Debug, Clone, Copy, PartialEq, Eq, Structural)]
pub struct ButtonSizeTokens {
    /// `container.height`.
    pub container_height: u32,
    /// `leading-space` / `trailing-space`.
    pub horizontal_space: u32,
    /// `icon.size`.
    pub icon_size: u32,
    /// `icon-label-space`.
    pub icon_label_space: u32,
    /// `outlined.outline-width`.
    pub outline_width: u32,
}

/// The token set of a button size.
pub open spec fn spec_button_size_tokens(size: ButtonSize) -> ButtonSizeTokens {
    match size {
        // ButtonXSmallTokens
        ButtonSize::ExtraSmall => ButtonSizeTokens {
            container_height: 32,
            horizontal_space: 12,
            icon_size: 20,
            icon_label_space: 8,
            outline_width: 1,
        },
        // ButtonSmallTokens
        ButtonSize::Small => ButtonSizeTokens {
            container_height: 40,
            horizontal_space: 16,
            icon_size: 20,
            icon_label_space: 8,
            outline_width: 1,
        },
        // ButtonMediumTokens
        ButtonSize::Medium => ButtonSizeTokens {
            container_height: 56,
            horizontal_space: 24,
            icon_size: 24,
            icon_label_space: 8,
            outline_width: 1,
        },
        // ButtonLargeTokens
        ButtonSize::Large => ButtonSizeTokens {
            container_height: 96,
            horizontal_space: 48,
            icon_size: 32,
            icon_label_space: 12,
            outline_width: 2,
        },
        // ButtonXLargeTokens
        ButtonSize::ExtraLarge => ButtonSizeTokens {
            container_height: 136,
            horizontal_space: 64,
            icon_size: 40,
            icon_label_space: 16,
            outline_width: 3,
        },
    }
}

/// The token set of a button size.
pub fn button_size_tokens(size: ButtonSize) -> (t: ButtonSizeTokens)
    ensures
        t == spec_button_size_tokens(size),
{
    match size {
        // ButtonXSmallTokens
        ButtonSize::ExtraSmall => ButtonSizeTokens {
            container_height: 32,
            horizontal_space: 12,
            icon_size: 20,
            icon_label_space: 8,
            outline_width: 1,
        },
        // ButtonSmallTokens
        ButtonSize::Small => ButtonSizeTokens {
            container_height: 40,
            horizontal_space: 16,
            icon_size: 20,
            icon_label_space: 8,
            outline_width: 1,
        },
        // ButtonMediumTokens
        ButtonSize::Medium => ButtonSizeTokens {
            container_height: 56,
            horizontal_space: 24,
            icon_size: 24,
            icon_label_space: 8,
            outline_width: 1,
        },
        // ButtonLargeTokens
        ButtonSize::Large => ButtonSizeTokens {
            container_height: 96,
            horizontal_space: 48,
            icon_size: 32,
            icon_label_space: 12,
            outline_width: 2,
        },
        // ButtonXLargeTokens
        ButtonSize::ExtraLarge => ButtonSizeTokens {
            container_height: 136,
            horizontal_space: 64,
            icon_size: 40,
            icon_label_space: 16,
            outline_width: 3,
        },
    }
}

// ---- Text field ----
/// Height reserved for the field's label.
pub const INPUT_LABEL_HEIGHT: u32 = 16;
/// `TextFieldDefaults.MinWidth`.
pub const INPUT_FIELD_MIN_WIDTH: u32 = 280;
/// `TextFieldDefaults.MinHeight`.
pub const INPUT_FIELD_MIN_HEIGHT: u32 = 56;
/// Horizontal text inset of the filled field.
pub const INPUT_FIELD_HORIZONTAL_INSET: u32 = 16;
/// Vertical text inset of the filled field.
pub const INPUT_FIELD_VERTICAL_INSET: u32 = 8;
/// `FilledTextFieldTokens.ContainerShape` top corners.
pub const INPUT_FILLED_CONTAINER_TOP_RADIUS: u32 = 4;
/// `FilledTextFieldTokens.ActiveIndicatorHeight`.
pub const INPUT_FILLED_ACTIVE_INDICATOR_HEIGHT: u32 = 1;
/// `FilledTextFieldTokens.FocusActiveIndicatorHeight`.
pub const INPUT_FILLED_FOCUS_ACTIVE_INDICATOR_HEIGHT: u32 = 2;

// ---- Picker ----
/// The menu picker is filled text-field chrome: `TextFieldDefaults.MinWidth`.
pub const PICKER_MENU_MIN_WIDTH: u32 = 280;
/// Minimum width of a radio picker.
pub const PICKER_RADIO_MIN_WIDTH: u32 = 72;
/// Minimum picker height.
pub const PICKER_MIN_HEIGHT: u32 = 56;
/// Horizontal picker inset.
pub const PICKER_HORIZONTAL_INSET: u32 = 16;
/// Vertical picker inset.
pub const PICKER_VERTICAL_INSET: u32 = 8;
/// Gap between an external picker label and the field.
pub const PICKER_LABEL_SPACING: u32 = 8;
/// Room reserved for the dropdown indicator.
pub const PICKER_INDICATOR_SPACE: u32 = 24;
/// `RadioButtonTokens.IconSize`.
pub const PICKER_RADIO_INDICATOR_SIZE: u32 = 20;
/// Gap between a radio indicator and its label.
pub const PICKER_RADIO_LABEL_SPACING: u32 = 12;
/// Gap between radio rows.
pub const PICKER_RADIO_ROW_SPACING: u32 = 8;
/// `RadioButtonTokens` ring stroke width.
pub const PICKER_RADIO_OUTER_RING_WIDTH: u32 = 2;
/// Half of `RadioButtonDotSize` (12dp).
pub const PICKER_RADIO_INNER_DOT_RADIUS: u32 = 6;
/// Vertical gap above the menu's rows.
pub const PICKER_MENU_POPUP_TOP_SPACING: u32 = 8;
/// `MenuTokens.ListItemContainerHeight`.
pub const PICKER_MENU_POPUP_ROW_HEIGHT: u32 = 48;
/// `MenuTokens.ContainerShape` (corner-extra-small).
pub const PICKER_MENU_POPUP_CORNER_RADIUS: u32 = 4;
/// `ButtonDefaults.MinWidth` per segment.
pub const PICKER_SEGMENTED_MIN_WIDTH: u32 = 58;
/// `OutlinedSegmentedButtonTokens.ContainerHeight`.
pub const PICKER_SEGMENTED_MIN_HEIGHT: u32 = 40;
/// Horizontal content padding of a segment.
pub const PICKER_SEGMENTED_HORIZONTAL_INSET: u32 = 12;
/// `OutlinedSegmentedButtonTokens.ShapeFull` radius at the 40dp height.
pub const PICKER_SEGMENTED_CONTAINER_RADIUS: u32 = 20;
/// `OutlinedSegmentedButtonTokens.OutlineWidth`.
pub const PICKER_SEGMENTED_OUTLINE_WIDTH: u32 = 1;

// ---- Slider ----
/// Horizontal slider inset.
pub const SLIDER_HORIZONTAL_INSET: u32 = 0;
/// Gap between slider labels and the track.
pub const SLIDER_HORIZONTAL_SPACING: u32 = 16;
/// Vertical spacing around the track.
pub const SLIDER_VERTICAL_SPACING: u32 = 8;
/// Minimum track width.
pub const SLIDER_MIN_TRACK_WIDTH: u32 = 120;
/// `SliderTokens.InactiveTrackHeight` / `ActiveTrackHeight`.
pub const SLIDER_TRACK_HEIGHT: u32 = 16;
/// `SliderTokens.HandleWidth`.
pub const SLIDER_HANDLE_WIDTH: u32 = 4;
/// `SliderTokens.HandleHeight`.
pub const SLIDER_HANDLE_HEIGHT: u32 = 44;
/// `SliderTokens.PressedHandleWidth`.
pub const SLIDER_PRESSED_HANDLE_WIDTH: u32 = 2;
/// `SliderTokens.ActiveHandlePadding`.
pub const SLIDER_HANDLE_PADDING: u32 = 6;
/// `SliderTokens.StopIndicatorSize`.
pub const SLIDER_STOP_INDICATOR_SIZE: u32 = 4;
/// `md.comp.slider.stop-indicator.trailing-space`.
pub const SLIDER_STOP_INDICATOR_END_SPACE: u32 = 4;
/// `SliderTokens.TrackInsideCornerSize`.
pub const SLIDER_TRACK_INSIDE_CORNER_SIZE: u32 = 2;

// ---- Toggle ----
/// `SwitchTokens.TrackWidth`.
pub const TOGGLE_SWITCH_WIDTH: u32 = 52;
/// `SwitchTokens.TrackHeight`.
pub const TOGGLE_SWITCH_HEIGHT: u32 = 32;
/// Gap between a toggle and its label.
pub const TOGGLE_LABEL_SPACING: u32 = 8;
/// `CheckboxTokens.ContainerSize`.
pub const TOGGLE_CHECKBOX_SIZE: u32 = 18;
/// `CheckboxTokens.ContainerShape` corner radius.
pub const TOGGLE_CHECKBOX_CONTAINER_SHAPE: u32 = 2;
/// `CheckboxTokens.UnselectedOutlineWidth`, also the check stroke.
pub const TOGGLE_CHECKBOX_OUTLINE_WIDTH: u32 = 2;
/// `SwitchTokens.TrackOutlineWidth`.
pub const TOGGLE_SWITCH_OUTLINE_WIDTH: u32 = 2;
/// `SwitchTokens.UnselectedHandleWidth`.
pub const TOGGLE_SWITCH_UNSELECTED_HANDLE_SIZE: u32 = 16;
/// `SwitchTokens.SelectedHandleWidth`.
pub const TOGGLE_SWITCH_SELECTED_HANDLE_SIZE: u32 = 24;
/// `SwitchTokens.PressedHandleWidth`.
pub const TOGGLE_SWITCH_PRESSED_HANDLE_SIZE: u32 = 28;
/// Compose's `ThumbPadding`: `(TrackHeight - SelectedHandleWidth) / 2`.
pub const TOGGLE_SWITCH_THUMB_PADDING: u32 = 4;
/// `SwitchTokens.SelectedIconSize`.
pub const TOGGLE_SWITCH_ICON_SIZE: u32 = 16;

// ---- Tabs ----
/// `PrimaryNavigationTabTokens.ContainerHeight`.
pub const TABS_BAR_HEIGHT: u32 = 48;
/// Minimum tab width.
pub const TABS_BUTTON_MIN_WIDTH: u32 = 48;
/// Horizontal label inset of a tab.
pub const TABS_BUTTON_HORIZONTAL_INSET: u32 = 16;
/// `PrimaryNavigationTabTokens.ActiveIndicatorHeight`.
pub const TABS_ACTIVE_INDICATOR_HEIGHT: u32 = 3;
/// `PrimaryNavigationTabTokens.ActiveIndicatorShape` top corners.
pub const TABS_ACTIVE_INDICATOR_RADIUS: u32 = 3;

// ---- Table ----
/// Minimum column width.
pub const TABLE_MIN_COLUMN_WIDTH: u32 = 56;
/// Horizontal cell padding.
pub const TABLE_CELL_HORIZONTAL_PADDING: u32 = 32;
/// Cell content inset.
pub const TABLE_CELL_VERTICAL_INSET: u32 = 16;
/// Header row height.
pub const TABLE_HEADER_HEIGHT: u32 = 56;
/// Data row height.
pub const TABLE_ROW_HEIGHT: u32 = 52;
/// Grid line width.
pub const TABLE_OUTLINE_WIDTH: u32 = 1;

// ---- Divider, scroll ----
/// `DividerTokens.Thickness`.
pub const DIVIDER_THICKNESS: u32 = 1;
/// Corner radius of the scroll indicator.
pub const SCROLL_INDICATOR_CORNER_RADIUS: u32 = 2;

} // verus!
