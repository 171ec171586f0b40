//! Material Design 3 icon buttons: the size scale, the semantic icon-only
//! button's metrics and chrome, and the color tokens of each variant.
use vstd::prelude::*;
use crate::color::{ColorRole, RolePaint, solid_paint};
use crate::controls::button::{
    ButtonChrome, ButtonSize, ButtonStyle, LabelColor, BUTTON_DISABLED_CONTAINER_OPACITY,
    spec_label_color,
};
use crate::metrics::ButtonMetrics;

verus! {

/// `IconButtonTokens.StateLayerSize`: the visible state layer of a small icon
/// button.
pub const ICON_BUTTON_STATE_LAYER_SIZE: u32 = 40;
/// `IconButtonTokens.IconSize`.
pub const ICON_BUTTON_ICON_SIZE: u32 = 24;
/// The 48dp minimum touch target every icon button occupies.
pub const ICON_BUTTON_TOUCH_TARGET_SIZE: u32 = 48;
/// `OutlinedIconButtonTokens.OutlineWidth` at the small size.
pub const ICON_BUTTON_OUTLINE_WIDTH: u32 = 1;

/// The geometry of one icon-button size.
#[derive(Debug, Clone, Copy, PartialEq, Eq, Structural)]
pub struct IconButtonSizeTokens {
    /// The box the button occupies, which is also its hit area.
    pub container: u32,
    /// The state layer drawn inside that box.
    pub state_layer: u32,
    /// `IconSize`.
    pub icon: u32,
    /// `OutlinedOutlineWidth`.
    pub outline_width: u32,
}

/// How large an icon button is drawn.
#[derive(Debug, Clone, Copy, PartialEq, Eq, Structural)]
pub enum IconButtonSize {
    /// `md.comp.icon-button.xsmall`: a 32dp state layer inside the 48dp
    /// minimum touch target.
    ExtraSmall,
    /// `md.comp.icon-button.small`: a 40dp state layer inside the 48dp target.
    Small,
    /// `md.comp.icon-button.medium`.
    Medium,
    /// `md.comp.icon-button.large`.
    Large,
    /// `md.comp.icon-button.xlarge`.
    ExtraLarge,
}

impl Default for IconButtonSize {
    /// The small size.
    fn default() -> (s: Self)
        ensures
            s == IconButtonSize::Small,
    {
        IconButtonSize::Small
    }
}

pub open spec fn spec_icon_button_tokens(size: IconButtonSize) -> IconButtonSizeTokens {
    match size {
        IconButtonSize::ExtraSmall => IconButtonSizeTokens {
            container: ICON_BUTTON_TOUCH_TARGET_SIZE,
            state_layer: 32,
            icon: 20,
            outline_width: ICON_BUTTON_OUTLINE_WIDTH,
        },
        IconButtonSize::Small => IconButtonSizeTokens {
            container: ICON_BUTTON_TOUCH_TARGET_SIZE,
            state_layer: ICON_BUTTON_STATE_LAYER_SIZE,
            icon: ICON_BUTTON_ICON_SIZE,
            outline_width: ICON_BUTTON_OUTLINE_WIDTH,
        },
        IconButtonSize::Medium => IconButtonSizeTokens {
            container: 56,
            state_layer: 56,
            icon: 24,
            outline_width: 1,
        },
        IconButtonSize::Large => IconButtonSizeTokens {
            container: 96,
            state_layer: 96,
            icon: 32,
            outline_width: 2,
        },
        IconButtonSize::ExtraLarge => IconButtonSizeTokens {
            container: 136,
            state_layer: 136,
            icon: 40,
            outline_width: 3,
        },
    }
}

impl IconButtonSize {
    /// The token set for this size. Extra-small and small sit inside the 48dp
    /// touch target; from medium up the container is the state layer itself.
    pub fn tokens(self) -> (t: IconButtonSizeTokens)
        ensures
            t == spec_icon_button_tokens(self),
    {
        match self {
            // md.comp.icon-button.xsmall.container.size = 32
            IconButtonSize::ExtraSmall => IconButtonSizeTokens {
                container: ICON_BUTTON_TOUCH_TARGET_SIZE,
                state_layer: 32,
                icon: 20,
                outline_width: ICON_BUTTON_OUTLINE_WIDTH,
            },
            IconButtonSize::Small => IconButtonSizeTokens {
                container: ICON_BUTTON_TOUCH_TARGET_SIZE,
                state_layer: ICON_BUTTON_STATE_LAYER_SIZE,
                icon: ICON_BUTTON_ICON_SIZE,
                outline_width: ICON_BUTTON_OUTLINE_WIDTH,
            },
            // md.comp.icon-button.medium
            IconButtonSize::Medium => IconButtonSizeTokens {
                container: 56,
                state_layer: 56,
                icon: 24,
                outline_width: 1,
            },
            // md.comp.icon-button.large
            IconButtonSize::Large => IconButtonSizeTokens {
                container: 96,
                state_layer: 96,
                icon: 32,
                outline_width: 2,
            },
            // md.comp.icon-button.xlarge
            IconButtonSize::ExtraLarge => IconButtonSizeTokens {
                container: 136,
                state_layer: 136,
                icon: 40,
                outline_width: 3,
            },
        }
    }
}

pub open spec fn spec_icon_button_size(size: ButtonSize) -> IconButtonSize {
    match size {
        ButtonSize::ExtraSmall => IconButtonSize::ExtraSmall,
        ButtonSize::Small => IconButtonSize::Small,
        ButtonSize::Medium => IconButtonSize::Medium,
        ButtonSize::Large => IconButtonSize::Large,
        ButtonSize::ExtraLarge => IconButtonSize::ExtraLarge,
    }
}

/// The icon-button size a semantic button size maps to.
pub fn icon_button_size(size: ButtonSize) -> (s: IconButtonSize)
    ensures
        s == spec_icon_button_size(size),
{
    match size {
        ButtonSize::ExtraSmall => IconButtonSize::ExtraSmall,
        ButtonSize::Small => IconButtonSize::Small,
        ButtonSize::Medium => IconButtonSize::Medium,
        ButtonSize::Large => IconButtonSize::Large,
        ButtonSize::ExtraLarge => IconButtonSize::ExtraLarge,
    }
}

pub open spec fn spec_metrics(style: ButtonStyle, size: ButtonSize) -> ButtonMetrics {
    let tokens = spec_icon_button_tokens(spec_icon_button_size(size));
    match style {
        ButtonStyle::Link => ButtonMetrics { padding_x: 0, padding_y: 0, min_width: 0, min_height: 0 },
        _ => ButtonMetrics {
            padding_x: 0,
            padding_y: 0,
            min_width: tokens.container,
            min_height: tokens.container,
        },
    }
}

/// The metrics a semantic button resolves when its label is icon-only. Every
/// style except `Link` reserves the icon-button touch target with no text
/// padding; a link keeps no container and no minimum box.
pub fn metrics(style: ButtonStyle, size: ButtonSize) -> (m: ButtonMetrics)
    ensures
        m == spec_metrics(style, size),
{
    let tokens = icon_button_size(size).tokens();
    match style {
        ButtonStyle::Link => ButtonMetrics { padding_x: 0, padding_y: 0, min_width: 0, min_height: 0 },
        _ => ButtonMetrics {
            padding_x: 0,
            padding_y: 0,
            min_width: tokens.container,
            min_height: tokens.container,
        },
    }
}

/// Whether the state layer fills the layout bounds of height `height`
/// (rounded up to a whole dp): it does once the container is the touch target
/// itself, past 48dp; inside the 48dp target it is the 40dp small layer,
/// centred.
pub fn state_layer_fills_bounds(height: u32) -> (b: bool)
    ensures
        b == (height > ICON_BUTTON_TOUCH_TARGET_SIZE),
{
    height > ICON_BUTTON_TOUCH_TARGET_SIZE
}

pub open spec fn spec_pressed_corner_radius(side: u32) -> u32 {
    if side <= ICON_BUTTON_STATE_LAYER_SIZE {
        8
    } else if side <= 56 {
        12
    } else {
        16
    }
}

/// `md.comp.icon-button.<size>.pressed.container.shape` by the state layer's
/// side (rounded up to a whole dp): corner-small up to 40dp, corner-medium to
/// 56dp, corner-large beyond.
pub fn pressed_corner_radius(side: u32) -> (r: u32)
    ensures
        r == spec_pressed_corner_radius(side),
{
    if side <= ICON_BUTTON_STATE_LAYER_SIZE {
        8  // md.sys.shape.corner-small
    } else if side <= 56 {
        12  // md.sys.shape.corner-medium
    } else {
        16  // md.sys.shape.corner-large
    }
}

pub open spec fn spec_outline_width(side: u32) -> u32 {
    if side <= 56 {
        1
    } else if side <= 96 {
        2
    } else {
        3
    }
}

/// `md.comp.icon-button.<size>.outlined.outline-width` by the state layer's
/// side (rounded up to a whole dp): 1dp through medium, 2dp at large, 3dp at
/// extra-large.
pub fn outline_width(side: u32) -> (w: u32)
    ensures
        w == spec_outline_width(side),
{
    if side <= 56 {
        1
    } else if side <= 96 {
        2
    } else {
        3
    }
}

pub open spec fn spec_chrome(style: ButtonStyle, disabled: bool, side: u32) -> ButtonChrome {
    match style {
        ButtonStyle::BorderedProminent => ButtonChrome::Container(
            if disabled {
                RolePaint { role: ColorRole::OnSurface, opacity: BUTTON_DISABLED_CONTAINER_OPACITY }
            } else {
                solid_paint(ColorRole::Primary)
            },
        ),
        ButtonStyle::Bordered => ButtonChrome::Outline {
            paint: solid_paint(ColorRole::OutlineVariant),
            width: spec_outline_width(side),
        },
        _ => ButtonChrome::Bare,
    }
}

/// The chrome of an icon-only button whose state layer has side `side`
/// (rounded up to a whole dp). The filled variant fills the state-layer
/// circle with primary (on-surface at 10% when disabled); the outlined
/// variant strokes it with outline-variant in every state; the standard
/// variant — which `Automatic` resolves to — and a link draw nothing.
pub fn chrome(style: ButtonStyle, disabled: bool, side: u32) -> (c: ButtonChrome)
    ensures
        c == spec_chrome(style, disabled, side),
{
    match style {
        ButtonStyle::BorderedProminent => {
            let fill = if disabled {
                RolePaint::with_opacity(ColorRole::OnSurface, BUTTON_DISABLED_CONTAINER_OPACITY)
            } else {
                RolePaint::solid(ColorRole::Primary)
            };
            ButtonChrome::Container(fill)
        },
        ButtonStyle::Bordered => ButtonChrome::Outline {
            paint: RolePaint::solid(ColorRole::OutlineVariant),
            width: outline_width(side),
        },
        ButtonStyle::Automatic | ButtonStyle::Plain | ButtonStyle::Borderless
        | ButtonStyle::Link => ButtonChrome::Bare,
    }
}

pub open spec fn spec_state_layer_role(style: ButtonStyle) -> ColorRole {
    match style {
        ButtonStyle::BorderedProminent => ColorRole::OnPrimary,
        _ => ColorRole::OnSurfaceVariant,
    }
}

/// The state-layer color of an icon-only button: on-primary for the filled
/// variant, on-surface-variant for the standard and outlined ones.
pub fn state_layer_role(style: ButtonStyle) -> (r: ColorRole)
    ensures
        r == spec_state_layer_role(style),
{
    match style {
        ButtonStyle::BorderedProminent => ColorRole::OnPrimary,
        ButtonStyle::Automatic | ButtonStyle::Bordered | ButtonStyle::Plain
        | ButtonStyle::Borderless | ButtonStyle::Link => ColorRole::OnSurfaceVariant,
    }
}

/// Color token set for an icon button variant.
pub trait IconButtonVariantTokens {
    spec fn spec_container_color() -> RolePaint;

    spec fn spec_icon_color() -> RolePaint;

    spec fn spec_outline_width() -> u32;

    /// Container color.
    fn container_color() -> (c: RolePaint)
        ensures
            c == Self::spec_container_color(),
    ;

    /// Icon/content color.
    fn icon_color() -> (c: RolePaint)
        ensures
            c == Self::spec_icon_color(),
    ;

    /// Border color: `OutlinedIconButtonTokens.OutlineColor` is
    /// outline-variant, the same softer role as the outlined button.
    fn outline_color() -> (c: RolePaint)
        ensures
            c == solid_paint(ColorRole::OutlineVariant),
    {
        RolePaint::solid(ColorRole::OutlineVariant)
    }

    /// Border width in dp.
    fn outline_width() -> (w: u32)
        ensures
            w == Self::spec_outline_width(),
    ;
}

/// Standard icon button tokens.
#[derive(Debug, Clone, Copy, Default)]
pub struct StandardIconButton;

/// Filled icon button tokens.
#[derive(Debug, Clone, Copy, Default)]
pub struct FilledIconButton;

/// Filled tonal icon button tokens.
#[derive(Debug, Clone, Copy, Default)]
pub struct FilledTonalIconButton;

/// Outlined icon button tokens.
#[derive(Debug, Clone, Copy, Default)]
pub struct OutlinedIconButton;

/// Selected standard icon button tokens.
#[derive(Debug, Clone, Copy, Default)]
pub struct SelectedStandardIconButton;

/// Selected outlined icon button tokens.
#[derive(Debug, Clone, Copy, Default)]
pub struct SelectedOutlinedIconButton;

/// A transparent container: surface at zero opacity.
pub open spec fn clear_container() -> RolePaint {
    RolePaint { role: ColorRole::Surface, opacity: 0 }
}

impl IconButtonVariantTokens for StandardIconButton {
    open spec fn spec_container_color() -> RolePaint {
        clear_container()
    }

    open spec fn spec_icon_color() -> RolePaint {
        solid_paint(ColorRole::OnSurfaceVariant)
    }

    open spec fn spec_outline_width() -> u32 {
        0
    }

    fn container_color() -> (c: RolePaint) {
        RolePaint::with_opacity(ColorRole::Surface, 0)
    }

    fn icon_color() -> (c: RolePaint) {
        RolePaint::solid(ColorRole::OnSurfaceVariant)
    }

    fn outline_width() -> (w: u32) {
        0
    }
}

impl IconButtonVariantTokens for FilledIconButton {
    open spec fn spec_container_color() -> RolePaint {
        solid_paint(ColorRole::Primary)
    }

    open spec fn spec_icon_color() -> RolePaint {
        solid_paint(ColorRole::OnPrimary)
    }

    open spec fn spec_outline_width() -> u32 {
        0
    }

    fn container_color() -> (c: RolePaint) {
        RolePaint::solid(ColorRole::Primary)
    }

    fn icon_color() -> (c: RolePaint) {
        RolePaint::solid(ColorRole::OnPrimary)
    }

    fn outline_width() -> (w: u32) {
        0
    }
}

impl IconButtonVariantTokens for FilledTonalIconButton {
    open spec fn spec_container_color() -> RolePaint {
        solid_paint(ColorRole::SecondaryContainer)
    }

    open spec fn spec_icon_color() -> RolePaint {
        solid_paint(ColorRole::OnSecondaryContainer)
    }

    open spec fn spec_outline_width() -> u32 {
        0
    }

    fn container_color() -> (c: RolePaint) {
        RolePaint::solid(ColorRole::SecondaryContainer)
    }

    fn icon_color() -> (c: RolePaint) {
        RolePaint::solid(ColorRole::OnSecondaryContainer)
    }

    fn outline_width() -> (w: u32) {
        0
    }
}

impl IconButtonVariantTokens for OutlinedIconButton {
    open spec fn spec_container_color() -> RolePaint {
        clear_container()
    }

    open spec fn spec_icon_color() -> RolePaint {
        solid_paint(ColorRole::OnSurfaceVariant)
    }

    open spec fn spec_outline_width() -> u32 {
        ICON_BUTTON_OUTLINE_WIDTH
    }

    fn container_color() -> (c: RolePaint) {
        RolePaint::with_opacity(ColorRole::Surface, 0)
    }

    fn icon_color() -> (c: RolePaint) {
        RolePaint::solid(ColorRole::OnSurfaceVariant)
    }

    fn outline_width() -> (w: u32) {
        ICON_BUTTON_OUTLINE_WIDTH
    }
}

impl IconButtonVariantTokens for SelectedStandardIconButton {
    open spec fn spec_container_color() -> RolePaint {
        clear_container()
    }

    open spec fn spec_icon_color() -> RolePaint {
        solid_paint(ColorRole::Primary)
    }

    open spec fn spec_outline_width() -> u32 {
        0
    }

    fn container_color() -> (c: RolePaint) {
        RolePaint::with_opacity(ColorRole::Surface, 0)
    }

    fn icon_color() -> (c: RolePaint) {
        RolePaint::solid(ColorRole::Primary)
    }

    fn outline_width() -> (w: u32) {
        0
    }
}

impl IconButtonVariantTokens for SelectedOutlinedIconButton {
    open spec fn spec_container_color() -> RolePaint {
        solid_paint(ColorRole::InverseSurface)
    }

    open spec fn spec_icon_color() -> RolePaint {
        solid_paint(ColorRole::InverseOnSurface)
    }

    open spec fn spec_outline_width() -> u32 {
        0
    }

    fn container_color() -> (c: RolePaint) {
        RolePaint::solid(ColorRole::InverseSurface)
    }

    fn icon_color() -> (c: RolePaint) {
        RolePaint::solid(ColorRole::InverseOnSurface)
    }

    fn outline_width() -> (w: u32) {
        0
    }
}

/// Every icon-button size clears the 48dp minimum touch target, no state
/// layer spills outside the box that receives the taps, and the icon sits
/// inside its state layer.
pub proof fn lemma_icon_button_sizes_fit_the_touch_target(size: IconButtonSize)
    ensures
        spec_icon_button_tokens(size).container >= ICON_BUTTON_TOUCH_TARGET_SIZE,
        spec_icon_button_tokens(size).state_layer <= spec_icon_button_tokens(size).container,
        spec_icon_button_tokens(size).icon < spec_icon_button_tokens(size).state_layer,
{
}

/// From medium up the container is the state layer, and reading the outline
/// width and the pressed shape off the drawn layer gives that size's tokens.
pub proof fn lemma_large_sizes_draw_their_tokens(size: IconButtonSize)
    requires
        size != IconButtonSize::ExtraSmall,
        size != IconButtonSize::Small,
    ensures
        spec_icon_button_tokens(size).container == spec_icon_button_tokens(size).state_layer,
        spec_icon_button_tokens(size).state_layer > ICON_BUTTON_TOUCH_TARGET_SIZE,
        spec_outline_width(spec_icon_button_tokens(size).state_layer)
            == spec_icon_button_tokens(size).outline_width,
{
}

/// Every icon-only style except `Link` reserves the touch target of its size.
pub proof fn lemma_icon_only_buttons_reserve_the_touch_target(style: ButtonStyle, size: ButtonSize)
    requires
        style != ButtonStyle::Link,
    ensures
        spec_metrics(style, size).min_width >= ICON_BUTTON_TOUCH_TARGET_SIZE,
        spec_metrics(style, size).min_height == spec_metrics(style, size).min_width,
        spec_metrics(style, size).padding_x == 0,
        spec_metrics(style, size).padding_y == 0,
{
}

/// The outlined icon button's border is outline-variant in every state.
pub proof fn lemma_outlined_border_is_outline_variant(disabled: bool, side: u32)
    ensures
        spec_chrome(ButtonStyle::Bordered, disabled, side) matches ButtonChrome::Outline { paint, .. }
            && paint == solid_paint(ColorRole::OutlineVariant),
{
}

/// An icon-only `Automatic` button is the standard icon button: it draws no
/// container, lights the standard variant's on-surface-variant state layer,
/// and the label color `Automatic` resolves to under an icon-only label is the
/// standard variant's icon color.
pub proof fn lemma_automatic_icon_button_is_standard(disabled: bool, side: u32)
    ensures
        spec_chrome(ButtonStyle::Automatic, disabled, side) == ButtonChrome::Bare,
        spec_state_layer_role(ButtonStyle::Automatic) == StandardIconButton::spec_icon_color().role,
        spec_label_color(ButtonStyle::Automatic, false) matches LabelColor::Automatic(c)
            && c.standard == StandardIconButton::spec_icon_color(),
{
}

/// The filled icon button and the filled text button dim their container to
/// the same disabled paint, and share their enabled primary container.
pub proof fn lemma_filled_containers_agree(disabled: bool, side: u32, height: u32)
    ensures
        spec_chrome(ButtonStyle::BorderedProminent, disabled, side)
            == crate::controls::button::spec_chrome(ButtonStyle::BorderedProminent, disabled, height),
{
}

/// An icon-only button's state layer is tinted with the icon color of the
/// variant its style draws: on-primary over the filled variant, and the
/// standard and outlined variants' on-surface-variant otherwise.
pub proof fn lemma_state_layer_matches_icon(style: ButtonStyle)
    ensures
        style == ButtonStyle::BorderedProminent ==> spec_state_layer_role(style)
            == FilledIconButton::spec_icon_color().role,
        style == ButtonStyle::Bordered ==> spec_state_layer_role(style)
            == OutlinedIconButton::spec_icon_color().role,
        style != ButtonStyle::BorderedProminent ==> spec_state_layer_role(style)
            == StandardIconButton::spec_icon_color().role,
{
}

/// The position of an icon-button size on its scale, smallest first.
pub open spec fn icon_size_rank(size: IconButtonSize) -> int {
    match size {
        IconButtonSize::ExtraSmall => 0,
        IconButtonSize::Small => 1,
        IconButtonSize::Medium => 2,
        IconButtonSize::Large => 3,
        IconButtonSize::ExtraLarge => 4,
    }
}

/// Each semantic button size maps to the icon-button size at the same place on
/// the scale, so the mapping keeps order and never merges two sizes; an
/// icon-only button at a size reserves that size's own container.
pub proof fn lemma_icon_size_keeps_its_place(a: ButtonSize, b: ButtonSize, style: ButtonStyle)
    ensures
        icon_size_rank(spec_icon_button_size(a)) == crate::controls::button::size_rank(a),
        crate::controls::button::size_rank(a) < crate::controls::button::size_rank(b)
            ==> icon_size_rank(spec_icon_button_size(a)) < icon_size_rank(spec_icon_button_size(b)),
        a != b ==> spec_icon_button_size(a) != spec_icon_button_size(b),
        style != ButtonStyle::Link && a == ButtonSize::ExtraLarge ==> spec_metrics(style, a).min_width == 136
            && spec_metrics(style, a).min_height == 136,
        style != ButtonStyle::Link && a == ButtonSize::Large ==> spec_metrics(style, a).min_width == 96,
        style != ButtonStyle::Link && a == ButtonSize::Medium ==> spec_metrics(style, a).min_width == 56,
        style != ButtonStyle::Link && (a == ButtonSize::Small || a == ButtonSize::ExtraSmall)
            ==> spec_metrics(style, a).min_width == ICON_BUTTON_TOUCH_TARGET_SIZE,
{
}

} // verus!
