//! The scroll indicator.
use vstd::prelude::*;
use crate::color::{ColorRole, RolePaint};

verus! {

/// Opacity of the scroll indicator over on-surface-variant.
pub const SCROLL_INDICATOR_OPACITY: u8 = 55;

/// The scroll indicator's paint: on-surface-variant at 55%, in a 2dp-cornered
/// bar.
pub fn indicator_paint() -> (p: RolePaint)
    ensures
        p == (RolePaint { role: ColorRole::OnSurfaceVariant, opacity: SCROLL_INDICATOR_OPACITY }),
{
    RolePaint::with_opacity(ColorRole::OnSurfaceVariant, SCROLL_INDICATOR_OPACITY)
}

} // verus!
