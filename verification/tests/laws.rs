//! The library's laws, each on concrete values.
use hydrolysis_m3::color::{ColorRole, RolePaint};
use hydrolysis_m3::controls::button::{
    self, ButtonChrome, ButtonSize, ButtonStyle, LabelColor,
};
use hydrolysis_m3::controls::picker::segment_radii;
use hydrolysis_m3::controls::toggle::{
    switch_handle, switch_paints, switch_thumb_rest_inset, SwitchHandle,
};
use hydrolysis_m3::dimensions::{button_size_tokens, TOGGLE_SWITCH_HEIGHT, TOGGLE_SWITCH_WIDTH};
use hydrolysis_m3::icon_button::{
    self, FilledIconButton, IconButtonSize, IconButtonVariantTokens, StandardIconButton,
};
use hydrolysis_m3::state::InteractionState;

#[test]
fn pressed_shape_per_size() {
    let expected = [
        (ButtonSize::ExtraSmall, 8),
        (ButtonSize::Small, 8),
        (ButtonSize::Medium, 12),
        (ButtonSize::Large, 16),
        (ButtonSize::ExtraLarge, 16),
    ];
    for (size, radius) in expected {
        let height = button_size_tokens(size).container_height;
        assert_eq!(button::pressed_corner_radius(height), radius, "{size:?}");
    }
}

#[test]
fn link_underline_follows_label() {
    for disabled in [false, true] {
        let ButtonChrome::Underline(underline) = button::chrome(ButtonStyle::Link, disabled, 40)
        else {
            panic!("a link draws an underline");
        };
        assert_eq!(button::label_color(ButtonStyle::Link, disabled), LabelColor::Role(underline));
    }
}

#[test]
fn state_layer_matches_label() {
    for style in [
        ButtonStyle::Plain,
        ButtonStyle::Link,
        ButtonStyle::Borderless,
        ButtonStyle::Bordered,
        ButtonStyle::BorderedProminent,
    ] {
        assert_eq!(
            button::label_color(style, false),
            LabelColor::Role(RolePaint::solid(button::state_layer_role(style)))
        );
    }
    let LabelColor::Automatic(automatic) = button::label_color(ButtonStyle::Automatic, false) else {
        panic!("automatic label color");
    };
    assert_eq!(automatic.filled.role, button::state_layer_role(ButtonStyle::Automatic));
}

#[test]
fn large_icon_button_sizes_draw_their_tokens() {
    for size in [IconButtonSize::Medium, IconButtonSize::Large, IconButtonSize::ExtraLarge] {
        let t = size.tokens();
        assert_eq!(t.container, t.state_layer);
        assert!(icon_button::state_layer_fills_bounds(t.state_layer));
        assert_eq!(icon_button::outline_width(t.state_layer), t.outline_width);
    }
}

#[test]
fn automatic_icon_button_is_standard() {
    assert_eq!(icon_button::chrome(ButtonStyle::Automatic, false, 40), ButtonChrome::Bare);
    assert_eq!(
        icon_button::state_layer_role(ButtonStyle::Automatic),
        StandardIconButton::icon_color().role
    );
    let LabelColor::Automatic(automatic) = button::label_color(ButtonStyle::Automatic, false) else {
        panic!("automatic label color");
    };
    assert_eq!(automatic.standard, StandardIconButton::icon_color());
}

#[test]
fn filled_containers_agree() {
    for disabled in [false, true] {
        assert_eq!(
            icon_button::chrome(ButtonStyle::BorderedProminent, disabled, 40),
            button::chrome(ButtonStyle::BorderedProminent, disabled, 96)
        );
    }
}

#[test]
fn icon_state_layer_matches_icon() {
    assert_eq!(
        icon_button::state_layer_role(ButtonStyle::BorderedProminent),
        FilledIconButton::icon_color().role
    );
    assert_eq!(
        icon_button::state_layer_role(ButtonStyle::Bordered),
        ColorRole::OnSurfaceVariant
    );
}

#[test]
fn segment_radii_mirror() {
    for (first, last) in [(true, false), (false, true), (true, true), (false, false)] {
        let a = segment_radii(first, last);
        let b = segment_radii(last, first);
        assert_eq!(a.top_left, b.top_right);
        assert_eq!(a.bottom_left, b.bottom_right);
    }
}

#[test]
fn thumb_fits_its_slot() {
    let inset = switch_thumb_rest_inset();
    assert_eq!(inset * 2, TOGGLE_SWITCH_HEIGHT);
    assert!(inset * 2 < TOGGLE_SWITCH_WIDTH);
    let SwitchHandle::Fixed(pressed) = switch_handle(true) else {
        panic!("the pressed handle has a fixed size");
    };
    assert!(pressed <= TOGGLE_SWITCH_HEIGHT && pressed / 2 <= inset);
}

#[test]
fn interacting_thumb_color_depends_on_selection_only() {
    let hovered = InteractionState { hovered: true, ..InteractionState::none() };
    let focused = InteractionState { focus_visible: true, ..InteractionState::none() };
    let pressed = InteractionState { pressed: true, ..InteractionState::none() };
    for selected in [false, true] {
        assert_eq!(switch_paints(hovered, selected).thumb, switch_paints(pressed, selected).thumb);
        assert_eq!(switch_paints(focused, selected).thumb, switch_paints(pressed, selected).thumb);
    }
}
