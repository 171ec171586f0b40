//! Material 3 Expressive common buttons: layout metrics, label color and the
//! chrome each style draws.
use vstd::prelude::*;
use crate::color::{
    ColorRole, RolePaint, disabled_content_paint, solid_paint, DISABLED_CONTENT_OPACITY,
};
use crate::dimensions::{
    BUTTON_LINK_HORIZONTAL_PADDING, BUTTON_LINK_VERTICAL_PADDING, BUTTON_MIN_WIDTH,
    BUTTON_TEXT_VERTICAL_PADDING, SHAPE_CORNER_LARGE, SHAPE_CORNER_MEDIUM, SHAPE_CORNER_SMALL,
    button_size_tokens, spec_button_size_tokens,
};
use crate::metrics::ButtonMetrics;

verus! {

/// The button styles this theme draws.
#[derive(Debug, Clone, Copy, PartialEq, Eq, Structural)]
pub enum ButtonStyle {
    /// The theme's default button: the filled button for a text label.
    Automatic,
    /// The text button.
    Plain,
    /// A hyperlink-styled button with no container.
    Link,
    /// A text button with interaction feedback.
    Borderless,
    /// The outlined button.
    Bordered,
    /// The filled button.
    BorderedProminent,
}

/// The Material 3 Expressive button size scale.
#[derive(Debug, Clone, Copy, PartialEq, Eq, Structural)]
pub enum ButtonSize {
    ExtraSmall,
    Small,
    Medium,
    Large,
    ExtraLarge,
}

/// The position of a size on the scale, smallest first.
pub open spec fn size_rank(size: ButtonSize) -> int {
    match size {
        ButtonSize::ExtraSmall => 0,
        ButtonSize::Small => 1,
        ButtonSize::Medium => 2,
        ButtonSize::Large => 3,
        ButtonSize::ExtraLarge => 4,
    }
}

/// The metrics of a text button: every container style takes the size's
/// padding and height with the common minimum width; a link has no container,
/// so it takes neither the size scale's padding nor a minimum box.
pub open spec fn spec_metrics(style: ButtonStyle, size: ButtonSize) -> ButtonMetrics {
    let tokens = spec_button_size_tokens(size);
    match style {
        ButtonStyle::Link => ButtonMetrics {
            padding_x: BUTTON_LINK_HORIZONTAL_PADDING,
            padding_y: BUTTON_LINK_VERTICAL_PADDING,
            min_width: 0,
            min_height: 0,
        },
        _ => ButtonMetrics {
            padding_x: tokens.horizontal_space,
            padding_y: BUTTON_TEXT_VERTICAL_PADDING,
            min_width: BUTTON_MIN_WIDTH,
            min_height: tokens.container_height,
        },
    }
}

/// Layout metrics for a text button of `style` at `size`.
pub fn metrics(style: ButtonStyle, size: ButtonSize) -> (m: ButtonMetrics)
    ensures
        m == spec_metrics(style, size),
{
    let tokens = button_size_tokens(size);
    match style {
        ButtonStyle::Link => ButtonMetrics {
            padding_x: BUTTON_LINK_HORIZONTAL_PADDING,
            padding_y: BUTTON_LINK_VERTICAL_PADDING,
            min_width: 0,
            min_height: 0,
        },
        _ => ButtonMetrics {
            padding_x: tokens.horizontal_space,
            padding_y: BUTTON_TEXT_VERTICAL_PADDING,
            min_width: BUTTON_MIN_WIDTH,
            min_height: tokens.container_height,
        },
    }
}

/// The label color of an `Automatic` button, which depends on its label:
/// on-primary for a text label (the filled button) and on-surface-variant for
/// an icon-only label (the standard icon button).
#[derive(Debug, Clone, Copy, PartialEq, Eq, Structural)]
pub struct AutomaticLabelColor {
    pub filled: RolePaint,
    pub standard: RolePaint,
}

impl AutomaticLabelColor {
    /// The paint for a label: `standard` inside an icon-only label's subtree,
    /// `filled` everywhere else.
    pub fn resolve(&self, icon_only: bool) -> (p: RolePaint)
        ensures
            p == (if icon_only { self.standard } else { self.filled }),
    {
        if icon_only {
            self.standard
        } else {
            self.filled
        }
    }
}

/// A button's label color.
#[derive(Debug, Clone, Copy, PartialEq, Eq, Structural)]
pub enum LabelColor {
    /// One paint in every subtree.
    Role(RolePaint),
    /// The `Automatic` style's label-dependent paint.
    Automatic(AutomaticLabelColor),
}

pub open spec fn spec_label_color(style: ButtonStyle, disabled: bool) -> LabelColor {
    if disabled {
        LabelColor::Role(disabled_content_paint(ColorRole::OnSurface))
    } else {
        match style {
            ButtonStyle::Automatic => LabelColor::Automatic(AutomaticLabelColor {
                filled: solid_paint(ColorRole::OnPrimary),
                standard: solid_paint(ColorRole::OnSurfaceVariant),
            }),
            ButtonStyle::BorderedProminent => LabelColor::Role(solid_paint(ColorRole::OnPrimary)),
            ButtonStyle::Bordered => LabelColor::Role(solid_paint(ColorRole::OnSurfaceVariant)),
            _ => LabelColor::Role(solid_paint(ColorRole::Primary)),
        }
    }
}

/// The label color of a button: on-surface at the 38% disabled-content
/// opacity whenever the button is disabled; otherwise on-primary for the
/// filled button, on-surface-variant for the outlined button
/// (`md.comp.button.outlined.label-text.color`), primary for text and link
/// buttons (`md.comp.button.text.label-text.color`), and the label-dependent
/// color for `Automatic`.
pub fn label_color(style: ButtonStyle, disabled: bool) -> (c: LabelColor)
    ensures
        c == spec_label_color(style, disabled),
{
    if disabled {
        return LabelColor::Role(RolePaint::disabled_content(ColorRole::OnSurface));
    }
    match style {
        ButtonStyle::Automatic => LabelColor::Automatic(AutomaticLabelColor {
            filled: RolePaint::solid(ColorRole::OnPrimary),
            standard: RolePaint::solid(ColorRole::OnSurfaceVariant),
        }),
        ButtonStyle::BorderedProminent => LabelColor::Role(RolePaint::solid(ColorRole::OnPrimary)),
        ButtonStyle::Bordered => LabelColor::Role(RolePaint::solid(ColorRole::OnSurfaceVariant)),
        ButtonStyle::Plain | ButtonStyle::Link | ButtonStyle::Borderless => LabelColor::Role(
            RolePaint::solid(ColorRole::Primary),
        ),
    }
}

/// Upper bound of the height band that presses to corner-small.
pub const BUTTON_EXTRA_SMALL_HEIGHT_BAND: u32 = 40;
/// Upper bound of the height band that presses to corner-medium and keeps a
/// 1dp outline.
pub const BUTTON_MEDIUM_HEIGHT_BAND: u32 = 56;
/// Upper bound of the height band with a 2dp outline.
pub const BUTTON_LARGE_HEIGHT_BAND: u32 = 96;

pub open spec fn spec_pressed_corner_radius(height: u32) -> u32 {
    if height <= BUTTON_EXTRA_SMALL_HEIGHT_BAND {
        SHAPE_CORNER_SMALL
    } else if height <= BUTTON_MEDIUM_HEIGHT_BAND {
        SHAPE_CORNER_MEDIUM
    } else {
        SHAPE_CORNER_LARGE
    }
}

/// `md.comp.button.<size>.pressed.container.shape`, reached through the
/// container's height because the draw callback carries no size:
/// corner-small up to 40dp, corner-medium to 56dp, corner-large beyond (a
/// stretched button behaves as large).
///
/// `height` is the container height rounded up to a whole dp. Every band ends
/// on a whole dp, so a height lies in a band exactly when its rounded-up value
/// does.
pub fn pressed_corner_radius(height: u32) -> (r: u32)
    ensures
        r == spec_pressed_corner_radius(height),
{
    if height <= BUTTON_EXTRA_SMALL_HEIGHT_BAND {
        SHAPE_CORNER_SMALL
    } else if height <= BUTTON_MEDIUM_HEIGHT_BAND {
        SHAPE_CORNER_MEDIUM
    } else {
        SHAPE_CORNER_LARGE
    }
}

pub open spec fn spec_outline_width(height: u32) -> u32 {
    if height <= BUTTON_MEDIUM_HEIGHT_BAND {
        1
    } else if height <= BUTTON_LARGE_HEIGHT_BAND {
        2
    } else {
        3
    }
}

/// `md.comp.button.<size>.outlined.outline-width` by container height (rounded
/// up to a whole dp): 1dp through medium, 2dp at large, 3dp at extra-large.
pub fn outline_width(height: u32) -> (w: u32)
    ensures
        w == spec_outline_width(height),
{
    if height <= BUTTON_MEDIUM_HEIGHT_BAND {
        1
    } else if height <= BUTTON_LARGE_HEIGHT_BAND {
        2
    } else {
        3
    }
}

/// `md.comp.button.filled.disabled.container.opacity`.
pub const BUTTON_DISABLED_CONTAINER_OPACITY: u8 = 10;

/// What a button draws under its label.
#[derive(Debug, Clone, Copy, PartialEq, Eq, Structural)]
pub enum ButtonChrome {
    /// A filled container.
    Container(RolePaint),
    /// A stroked container outline of `width` dp.
    Outline { paint: RolePaint, width: u32 },
    /// A link underline.
    Underline(RolePaint),
    /// No chrome.
    Bare,
}

pub open spec fn spec_chrome(style: ButtonStyle, disabled: bool, height: u32) -> ButtonChrome {
    match style {
        ButtonStyle::Automatic | ButtonStyle::BorderedProminent => ButtonChrome::Container(
            if disabled {
                RolePaint { role: ColorRole::OnSurface, opacity: BUTTON_DISABLED_CONTAINER_OPACITY }
            } else {
                solid_paint(ColorRole::Primary)
            },
        ),
        ButtonStyle::Bordered => ButtonChrome::Outline {
            paint: solid_paint(ColorRole::OutlineVariant),
            width: spec_outline_width(height),
        },
        ButtonStyle::Link => ButtonChrome::Underline(
            if disabled {
                disabled_content_paint(ColorRole::OnSurface)
            } else {
                solid_paint(ColorRole::Primary)
            },
        ),
        ButtonStyle::Plain | ButtonStyle::Borderless => ButtonChrome::Bare,
    }
}

/// The chrome a button of `style` draws at a container `height` (rounded up to
/// a whole dp). The filled container drops to on-surface at 10% when disabled
/// (`md.comp.button.filled.disabled.container.opacity`); the outlined border
/// is outline-variant in every state, disabled included
/// (`md.comp.button.outlined.disabled.outline.color`); the link underline
/// follows the label; text buttons have no container.
pub fn chrome(style: ButtonStyle, disabled: bool, height: u32) -> (c: ButtonChrome)
    ensures
        c == spec_chrome(style, disabled, height),
{
    match style {
        ButtonStyle::Automatic | ButtonStyle::BorderedProminent => {
            let fill = if disabled {
                RolePaint::with_opacity(ColorRole::OnSurface, BUTTON_DISABLED_CONTAINER_OPACITY)
            } else {
                RolePaint::solid(ColorRole::Primary)
            };
            ButtonChrome::Container(fill)
        },
        ButtonStyle::Bordered => ButtonChrome::Outline {
            paint: RolePaint::solid(ColorRole::OutlineVariant),
            width: outline_width(height),
        },
        ButtonStyle::Link => {
            let underline = if disabled {
                RolePaint::disabled_content(ColorRole::OnSurface)
            } else {
                RolePaint::solid(ColorRole::Primary)
            };
            ButtonChrome::Underline(underline)
        },
        ButtonStyle::Plain | ButtonStyle::Borderless => ButtonChrome::Bare,
    }
}

pub open spec fn spec_state_layer_role(style: ButtonStyle) -> ColorRole {
    match style {
        ButtonStyle::Automatic | ButtonStyle::BorderedProminent => ColorRole::OnPrimary,
        ButtonStyle::Bordered => ColorRole::OnSurfaceVariant,
        _ => ColorRole::Primary,
    }
}

/// The state-layer color of a button: on-primary over the filled container,
/// on-surface-variant for the outlined button, primary for text and link
/// buttons (`md.comp.button.*.state-layer.color`).
pub fn state_layer_role(style: ButtonStyle) -> (r: ColorRole)
    ensures
        r == spec_state_layer_role(style),
{
    match style {
        ButtonStyle::Automatic | ButtonStyle::BorderedProminent => ColorRole::OnPrimary,
        ButtonStyle::Bordered => ColorRole::OnSurfaceVariant,
        ButtonStyle::Link | ButtonStyle::Plain | ButtonStyle::Borderless => ColorRole::Primary,
    }
}

/// The size scale is monotonic: a larger size is strictly taller and never
/// has less padding or a smaller icon.
pub proof fn lemma_size_scale_is_monotonic(smaller: ButtonSize, larger: ButtonSize)
    requires
        size_rank(smaller) < size_rank(larger),
    ensures
        spec_button_size_tokens(larger).container_height > spec_button_size_tokens(smaller).container_height,
        spec_button_size_tokens(larger).horizontal_space >= spec_button_size_tokens(smaller).horizontal_space,
        spec_button_size_tokens(larger).icon_size >= spec_button_size_tokens(smaller).icon_size,
        spec_button_size_tokens(larger).outline_width >= spec_button_size_tokens(smaller).outline_width,
{
}

/// A container button's measured height and padding follow the size it was
/// given, whatever its style.
pub proof fn lemma_metrics_follow_size(style: ButtonStyle, size: ButtonSize)
    requires
        style != ButtonStyle::Link,
    ensures
        spec_metrics(style, size).min_height == spec_button_size_tokens(size).container_height,
        spec_metrics(style, size).padding_x == spec_button_size_tokens(size).horizontal_space,
        spec_metrics(style, size).min_width == BUTTON_MIN_WIDTH,
{
}

/// A disabled button's label is on-surface at 38% for every style.
pub proof fn lemma_disabled_label_is_on_surface_38(style: ButtonStyle)
    ensures
        spec_label_color(style, true) == LabelColor::Role(
            RolePaint { role: ColorRole::OnSurface, opacity: DISABLED_CONTENT_OPACITY },
        ),
{
}

/// The outlined button's border is outline-variant in every state, and its
/// width is the one its height band gives.
pub proof fn lemma_outlined_border_is_outline_variant(disabled: bool, height: u32)
    ensures
        spec_chrome(ButtonStyle::Bordered, disabled, height) == (ButtonChrome::Outline {
            paint: solid_paint(ColorRole::OutlineVariant),
            width: spec_outline_width(height),
        }),
{
}

/// Reading the outline width off a button's height gives the outline width of
/// its size token: 1dp through medium, 2dp at large, 3dp at extra-large.
pub proof fn lemma_outline_width_matches_size_tokens(size: ButtonSize)
    ensures
        spec_outline_width(spec_button_size_tokens(size).container_height)
            == spec_button_size_tokens(size).outline_width,
{
}

/// Reading the pressed shape off a button's height gives each size its
/// `pressed.container.shape`: 8, 8, 12, 16 and 16dp from extra-small up.
pub proof fn lemma_pressed_shape_per_size(size: ButtonSize)
    ensures
        spec_pressed_corner_radius(spec_button_size_tokens(size).container_height) == (match size {
            ButtonSize::ExtraSmall => 8u32,
            ButtonSize::Small => 8u32,
            ButtonSize::Medium => 12u32,
            ButtonSize::Large => 16u32,
            ButtonSize::ExtraLarge => 16u32,
        }),
{
}

/// `Automatic` draws exactly what the filled button draws.
pub proof fn lemma_automatic_renders_filled(disabled: bool, height: u32)
    ensures
        spec_chrome(ButtonStyle::Automatic, disabled, height) == spec_chrome(
            ButtonStyle::BorderedProminent,
            disabled,
            height,
        ),
        spec_state_layer_role(ButtonStyle::Automatic) == spec_state_layer_role(
            ButtonStyle::BorderedProminent,
        ),
{
}

/// A link's underline follows its label: primary when enabled, on-surface at
/// 38% when disabled.
pub proof fn lemma_link_underline_follows_label(disabled: bool, height: u32)
    ensures
        spec_chrome(ButtonStyle::Link, disabled, height) matches ButtonChrome::Underline(paint)
            && spec_label_color(ButtonStyle::Link, disabled) == LabelColor::Role(paint),
{
}

/// An enabled button's state layer is tinted with its content color: the
/// label color (for `Automatic`, the text label's) is the state-layer role at
/// full opacity.
pub proof fn lemma_state_layer_matches_label(style: ButtonStyle)
    ensures
        match spec_label_color(style, false) {
            LabelColor::Role(p) => p == solid_paint(spec_state_layer_role(style)),
            LabelColor::Automatic(c) => c.filled == solid_paint(spec_state_layer_role(style)),
        },
{
}

} // verus!
