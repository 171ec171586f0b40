//! The Material 3 primary tab bar.
use vstd::prelude::*;
use crate::color::ColorRole;
use crate::dimensions::{
    TABS_ACTIVE_INDICATOR_HEIGHT, TABS_ACTIVE_INDICATOR_RADIUS, TABS_BAR_HEIGHT,
    TABS_BUTTON_HORIZONTAL_INSET, TABS_BUTTON_MIN_WIDTH,
};
use crate::metrics::{CornerRadii, TabsMetrics};

verus! {

pub open spec fn spec_metrics() -> TabsMetrics {
    TabsMetrics {
        bar_height: TABS_BAR_HEIGHT,
        button_min_width: TABS_BUTTON_MIN_WIDTH,
        button_horizontal_inset: TABS_BUTTON_HORIZONTAL_INSET,
        active_indicator_height: TABS_ACTIVE_INDICATOR_HEIGHT,
        active_indicator_radius: TABS_ACTIVE_INDICATOR_RADIUS,
    }
}

/// Tab bar metrics (`PrimaryNavigationTabTokens`): a 48dp bar and a 3dp active
/// indicator with 3dp top corners.
pub fn metrics() -> (m: TabsMetrics)
    ensures
        m == spec_metrics(),
{
    TabsMetrics {
        bar_height: TABS_BAR_HEIGHT,
        button_min_width: TABS_BUTTON_MIN_WIDTH,
        button_horizontal_inset: TABS_BUTTON_HORIZONTAL_INSET,
        active_indicator_height: TABS_ACTIVE_INDICATOR_HEIGHT,
        active_indicator_radius: TABS_ACTIVE_INDICATOR_RADIUS,
    }
}

/// Where the bar's 1dp separator runs.
#[derive(Debug, Clone, Copy, PartialEq, Eq, Structural)]
pub enum SeparatorEdge {
    /// Along the bar's bottom edge.
    Bottom,
    /// Along the bar's top edge.
    Top,
}

/// The bar's separator faces the content: a bar at the top of its container
/// draws it along its bottom edge, a bar at the bottom along its top edge.
pub fn separator_edge(top_edge: bool) -> (e: SeparatorEdge)
    ensures
        e == (if top_edge { SeparatorEdge::Bottom } else { SeparatorEdge::Top }),
{
    if top_edge {
        SeparatorEdge::Bottom
    } else {
        SeparatorEdge::Top
    }
}

/// The bar's background is surface and its separator surface-variant
/// (`md.comp.primary-navigation-tab.divider.color`).
pub fn bar_roles() -> (r: (ColorRole, ColorRole))
    ensures
        r == (ColorRole::Surface, ColorRole::SurfaceVariant),
{
    (ColorRole::Surface, ColorRole::SurfaceVariant)
}

/// The active indicator: primary, rounded on its top corners only.
pub fn highlight() -> (h: (ColorRole, CornerRadii))
    ensures
        h == (ColorRole::Primary, CornerRadii {
            top_left: TABS_ACTIVE_INDICATOR_RADIUS,
            top_right: TABS_ACTIVE_INDICATOR_RADIUS,
            bottom_right: 0,
            bottom_left: 0,
        }),
{
    (
        ColorRole::Primary,
        CornerRadii {
            top_left: TABS_ACTIVE_INDICATOR_RADIUS,
            top_right: TABS_ACTIVE_INDICATOR_RADIUS,
            bottom_right: 0,
            bottom_left: 0,
        },
    )
}

/// A tab's state-layer color: primary for the selected tab and for any tab
/// being pressed, on-surface otherwise.
pub fn button_state_layer_role(selected: bool, pressed: bool) -> (r: ColorRole)
    ensures
        r == (if selected || pressed { ColorRole::Primary } else { ColorRole::OnSurface }),
{
    if selected || pressed {
        ColorRole::Primary
    } else {
        ColorRole::OnSurface
    }
}

} // verus!
