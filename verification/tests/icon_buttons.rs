use hydrolysis_m3::color::{ColorRole, RolePaint};
use hydrolysis_m3::controls::button::{ButtonChrome, ButtonSize, ButtonStyle};
use hydrolysis_m3::icon_button::{
    chrome, icon_button_size, metrics, outline_width, pressed_corner_radius,
    state_layer_fills_bounds, state_layer_role, FilledIconButton, FilledTonalIconButton,
    IconButtonSize, IconButtonVariantTokens, OutlinedIconButton, SelectedOutlinedIconButton,
    SelectedStandardIconButton, StandardIconButton, ICON_BUTTON_ICON_SIZE,
    ICON_BUTTON_OUTLINE_WIDTH, ICON_BUTTON_STATE_LAYER_SIZE, ICON_BUTTON_TOUCH_TARGET_SIZE,
};

/// A semantic icon-only button lays out at the icon-button touch target —
/// 48dp at the small size — with no text padding. A link keeps no container
/// and no minimum box.
#[test]
fn icon_button_metrics_lay_out_at_the_touch_target() {
    let m = metrics(ButtonStyle::Automatic, ButtonSize::Small);
    assert_eq!(m.min_width, ICON_BUTTON_TOUCH_TARGET_SIZE);
    assert_eq!(m.min_height, ICON_BUTTON_TOUCH_TARGET_SIZE);
    assert_eq!(m.padding_x, 0);
    assert_eq!(m.padding_y, 0);

    let link = metrics(ButtonStyle::Link, ButtonSize::Small);
    assert_eq!(link.min_width, 0);
    assert_eq!(link.min_height, 0);
}

/// `md.comp.icon-button.{xsmall..xlarge}`.
#[test]
fn icon_button_size_scale_matches_compose_icon_button_tokens() {
    let extra_small = IconButtonSize::ExtraSmall.tokens();
    assert_eq!(extra_small.container, 48);
    assert_eq!(extra_small.state_layer, 32);
    assert_eq!(extra_small.icon, 20);
    assert_eq!(extra_small.outline_width, 1);

    let small = IconButtonSize::Small.tokens();
    assert_eq!(small.container, 48);
    assert_eq!(small.state_layer, 40);
    assert_eq!(small.icon, 24);

    let medium = IconButtonSize::Medium.tokens();
    assert_eq!(medium.container, 56);
    assert_eq!(medium.icon, 24);
    assert_eq!(medium.outline_width, 1);

    let large = IconButtonSize::Large.tokens();
    assert_eq!(large.container, 96);
    assert_eq!(large.icon, 32);
    assert_eq!(large.outline_width, 2);

    let extra_large = IconButtonSize::ExtraLarge.tokens();
    assert_eq!(extra_large.container, 136);
    assert_eq!(extra_large.icon, 40);
    assert_eq!(extra_large.outline_width, 3);

    // Every size clears the 48dp minimum touch target, and no state layer
    // ever spills outside the box that receives the taps.
    for size in [extra_small, small, medium, large, extra_large] {
        assert!(size.container >= 48);
        assert!(size.state_layer <= size.container);
        assert!(size.icon < size.state_layer);
    }
}

#[test]
fn icon_button_tokens_match_compose_icon_button_tokens() {
    assert_eq!(ICON_BUTTON_STATE_LAYER_SIZE, 40);
    assert_eq!(ICON_BUTTON_ICON_SIZE, 24);
}

#[test]
fn outlined_icon_button_tokens_match_compose_icon_button_tokens() {
    assert_eq!(
        OutlinedIconButton::outline_width(),
        ICON_BUTTON_OUTLINE_WIDTH
    );
}

/// `OutlinedIconButtonTokens.OutlineColor` is `outlineVariant`.
#[test]
fn outlined_icon_button_border_uses_outline_variant() {
    for color in [
        OutlinedIconButton::outline_color(),
        SelectedOutlinedIconButton::outline_color(),
    ] {
        assert_eq!(color, RolePaint::solid(ColorRole::OutlineVariant));
    }
}

#[test]
fn variant_tokens_name_their_roles() {
    let clear = RolePaint::with_opacity(ColorRole::Surface, 0);
    assert_eq!(StandardIconButton::container_color(), clear);
    assert_eq!(StandardIconButton::icon_color(), RolePaint::solid(ColorRole::OnSurfaceVariant));
    assert_eq!(StandardIconButton::outline_width(), 0);
    assert_eq!(FilledIconButton::container_color(), RolePaint::solid(ColorRole::Primary));
    assert_eq!(FilledIconButton::icon_color(), RolePaint::solid(ColorRole::OnPrimary));
    assert_eq!(
        FilledTonalIconButton::container_color(),
        RolePaint::solid(ColorRole::SecondaryContainer)
    );
    assert_eq!(
        FilledTonalIconButton::icon_color(),
        RolePaint::solid(ColorRole::OnSecondaryContainer)
    );
    assert_eq!(OutlinedIconButton::container_color(), clear);
    assert_eq!(SelectedStandardIconButton::icon_color(), RolePaint::solid(ColorRole::Primary));
    assert_eq!(
        SelectedOutlinedIconButton::container_color(),
        RolePaint::solid(ColorRole::InverseSurface)
    );
    assert_eq!(
        SelectedOutlinedIconButton::icon_color(),
        RolePaint::solid(ColorRole::InverseOnSurface)
    );
    assert_eq!(SelectedOutlinedIconButton::outline_width(), 0);
    assert_eq!(IconButtonSize::default(), IconButtonSize::Small);
}

#[test]
fn icon_chrome_draws_filled_and_outlined_containers_only() {
    assert_eq!(
        chrome(ButtonStyle::BorderedProminent, false, 40),
        ButtonChrome::Container(RolePaint::solid(ColorRole::Primary))
    );
    assert_eq!(
        chrome(ButtonStyle::BorderedProminent, true, 40),
        ButtonChrome::Container(RolePaint::with_opacity(ColorRole::OnSurface, 10))
    );
    assert_eq!(
        chrome(ButtonStyle::Bordered, true, 96),
        ButtonChrome::Outline {
            paint: RolePaint::solid(ColorRole::OutlineVariant),
            width: 2,
        }
    );
    for style in [
        ButtonStyle::Automatic,
        ButtonStyle::Plain,
        ButtonStyle::Borderless,
        ButtonStyle::Link,
    ] {
        assert_eq!(chrome(style, false, 40), ButtonChrome::Bare);
        assert_eq!(state_layer_role(style), ColorRole::OnSurfaceVariant);
    }
    assert_eq!(state_layer_role(ButtonStyle::BorderedProminent), ColorRole::OnPrimary);
}

#[test]
fn state_layer_fills_bounds_only_past_the_touch_target() {
    assert!(!state_layer_fills_bounds(48));
    assert!(state_layer_fills_bounds(49));
    assert!(state_layer_fills_bounds(56));
    assert_eq!(pressed_corner_radius(40), 8);
    assert_eq!(pressed_corner_radius(56), 12);
    assert_eq!(pressed_corner_radius(96), 16);
    assert_eq!(outline_width(136), 3);
    assert_eq!(icon_button_size(ButtonSize::Medium), IconButtonSize::Medium);
    assert_eq!(icon_button_size(ButtonSize::ExtraSmall), IconButtonSize::ExtraSmall);
    let large = metrics(ButtonStyle::Bordered, ButtonSize::Large);
    assert_eq!(large.min_width, 96);
    assert_eq!(large.min_height, 96);
}
