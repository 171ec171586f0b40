//! Material Design 3 color roles and the paints widget chrome draws with.
use vstd::prelude::*;

verus! {

/// A Material `md.sys.color.*` role.
#[derive(Debug, Clone, Copy, PartialEq, Eq, Structural)]
pub enum ColorRole {
    Background,
    OnBackground,
    Surface,
    SurfaceDim,
    SurfaceBright,
    SurfaceContainerLowest,
    SurfaceContainerLow,
    SurfaceContainer,
    SurfaceContainerHigh,
    SurfaceContainerHighest,
    OnSurface,
    SurfaceVariant,
    OnSurfaceVariant,
    InverseSurface,
    InverseOnSurface,
    Outline,
    OutlineVariant,
    Shadow,
    Scrim,
    SurfaceTint,
    Primary,
    OnPrimary,
    PrimaryContainer,
    OnPrimaryContainer,
    InversePrimary,
    Secondary,
    OnSecondary,
    SecondaryContainer,
    OnSecondaryContainer,
    Tertiary,
    OnTertiary,
    TertiaryContainer,
    OnTertiaryContainer,
    Error,
    OnError,
    ErrorContainer,
    OnErrorContainer,
    PrimaryFixed,
    PrimaryFixedDim,
    OnPrimaryFixed,
    OnPrimaryFixedVariant,
    SecondaryFixed,
    SecondaryFixedDim,
    OnSecondaryFixed,
    OnSecondaryFixedVariant,
    TertiaryFixed,
    TertiaryFixedDim,
    OnTertiaryFixed,
    OnTertiaryFixedVariant,
}

/// `md.sys.state.disabled` content opacity: 38%.
pub const DISABLED_CONTENT_OPACITY: u8 = 38;
/// Disabled container opacity: 12%.
pub const DISABLED_CONTAINER_OPACITY: u8 = 12;
/// Fully opaque.
pub const OPAQUE: u8 = 100;

/// A role color drawn at an opacity, in whole percent (0 to 100).
#[derive(Debug, Clone, Copy, PartialEq, Eq, Structural)]
pub struct RolePaint {
    pub role: ColorRole,
    pub opacity: u8,
}

impl RolePaint {
    /// The role at full opacity.
    pub fn solid(role: ColorRole) -> (p: RolePaint)
        ensures
            p == solid_paint(role),
    {
        RolePaint { role, opacity: OPAQUE }
    }

    /// The role at `opacity` percent.
    pub fn with_opacity(role: ColorRole, opacity: u8) -> (p: RolePaint)
        ensures
            p == (RolePaint { role, opacity }),
    {
        RolePaint { role, opacity }
    }

    /// The role at the 38% disabled-content opacity.
    pub fn disabled_content(role: ColorRole) -> (p: RolePaint)
        ensures
            p == disabled_content_paint(role),
    {
        RolePaint { role, opacity: DISABLED_CONTENT_OPACITY }
    }

    /// The role at the 12% disabled-container opacity.
    pub fn disabled_container(role: ColorRole) -> (p: RolePaint)
        ensures
            p == disabled_container_paint(role),
    {
        RolePaint { role, opacity: DISABLED_CONTAINER_OPACITY }
    }
}

pub open spec fn solid_paint(role: ColorRole) -> RolePaint {
    RolePaint { role, opacity: 100 }
}

pub open spec fn disabled_content_paint(role: ColorRole) -> RolePaint {
    RolePaint { role, opacity: 38 }
}

pub open spec fn disabled_container_paint(role: ColorRole) -> RolePaint {
    RolePaint { role, opacity: 12 }
}

/// A paint that moves between two role paints as an animation's progress goes
/// from 0 to 1; the renderer interpolates the two resolved colors.
#[derive(Debug, Clone, Copy, PartialEq, Eq, Structural)]
pub struct BlendPaint {
    pub from: RolePaint,
    pub to: RolePaint,
}

/// The light or dark appearance a scheme is resolved for.
#[derive(Debug, Clone, Copy, PartialEq, Eq, Structural)]
pub enum ColorScheme {
    Light,
    Dark,
}

/// The light and dark Material schemes an app installs.
#[derive(Debug, Clone, Copy)]
pub struct MaterialColorSchemes<S> {
    pub light: S,
    pub dark: S,
}

/// The scheme that applies in `mode`: the light scheme for the light
/// appearance, the dark one for the dark appearance.
pub fn material_scheme_for_color_scheme<S: Copy>(schemes: &MaterialColorSchemes<S>, mode: ColorScheme) -> (s: S)
    ensures
        mode == ColorScheme::Light ==> s == schemes.light,
        mode == ColorScheme::Dark ==> s == schemes.dark,
{
    match mode {
        ColorScheme::Light => schemes.light,
        ColorScheme::Dark => schemes.dark,
    }
}

} // verus!
