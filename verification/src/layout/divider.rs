//! Material 3 dividers.
use vstd::prelude::*;
use crate::color::ColorRole;
use crate::dimensions::DIVIDER_THICKNESS;
use crate::metrics::DividerMetrics;

verus! {

/// Divider metrics: `DividerTokens.Thickness`, 1dp.
pub fn metrics() -> (m: DividerMetrics)
    ensures
        m == (DividerMetrics { thickness: DIVIDER_THICKNESS }),
{
    DividerMetrics { thickness: DIVIDER_THICKNESS }
}

/// The divider's color: outline-variant (`md.comp.divider.color`).
pub fn role() -> (r: ColorRole)
    ensures
        r == ColorRole::OutlineVariant,
{
    ColorRole::OutlineVariant
}

} // verus!
