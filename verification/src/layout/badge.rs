//! Material 3 badges.
use vstd::prelude::*;
use crate::color::ColorRole;
use crate::metrics::BadgeMetrics;

verus! {

pub open spec fn spec_metrics() -> BadgeMetrics {
    BadgeMetrics {
        small_size: 6,
        large_size: 16,
        large_horizontal_padding: 4,
        small_offset_x: 6,
        small_offset_y: 6,
        large_offset_x: 12,
        large_offset_y: 14,
    }
}

/// Badge metrics (`BadgeTokens`): a 6dp dot, a 16dp labeled badge with 4dp
/// padding, and their offsets from the content's top trailing corner.
pub fn metrics() -> (m: BadgeMetrics)
    ensures
        m == spec_metrics(),
{
    BadgeMetrics {
        small_size: 6,
        large_size: 16,
        large_horizontal_padding: 4,
        small_offset_x: 6,
        small_offset_y: 6,
        large_offset_x: 12,
        large_offset_y: 14,
    }
}

/// The badge's label: on-error (`md.comp.badge.large.label-text.color`).
pub fn label_role() -> (r: ColorRole)
    ensures
        r == ColorRole::OnError,
{
    ColorRole::OnError
}

/// The badge's container, dot or capsule: error.
pub fn container_role() -> (r: ColorRole)
    ensures
        r == ColorRole::Error,
{
    ColorRole::Error
}

} // verus!
