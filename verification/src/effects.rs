//! Platform-conditional window background effects.
//!
//! The vibrancy material is only ever applied on macOS; on every other
//! platform the outcome is a no-op, never an error. Rendering itself is
//! the host compositor's job: this module decides, the host performs.

use vstd::prelude::*;

verus! {

/// The target platform, as far as the background effect cares.
#[derive(Clone, Copy, Debug, PartialEq, Eq, Structural)]
pub enum Platform {
    MacOs,
    Other,
}

/// The closed set of visual-effect materials the application variants use.
#[derive(Clone, Copy, Debug, PartialEq, Eq, Structural)]
pub enum Material {
    UltraDark,
    UnderWindowBackground,
    HudWindow,
}

/// What the host layer is asked to do with the window background.
#[derive(Clone, Copy, Debug, PartialEq, Eq, Structural)]
pub enum EffectAction {
    /// Apply the named material to the main window. A host-level failure
    /// of this step is fatal to startup, by the fail-fast policy.
    Apply(Material),
    /// Do nothing: the platform has no vibrancy support. Not an error.
    NoOp,
}

/// The material the theme-driven entry point selects: the dark material
/// in dark mode, the default material otherwise.
pub open spec fn vibrancy_material(is_dark_mode: bool) -> Material {
    if is_dark_mode {
        Material::UltraDark
    } else {
        Material::UnderWindowBackground
    }
}

/// Select the theme-driven material.
pub fn select_vibrancy_material(is_dark_mode: bool) -> (m: Material)
    ensures
        m == vibrancy_material(is_dark_mode),
{
    if is_dark_mode {
        Material::UltraDark
    } else {
        Material::UnderWindowBackground
    }
}

/// Background effects for the main window, conditioned on the platform.
#[derive(Clone, Copy, Debug, PartialEq, Eq, Structural)]
pub struct PlatformEffects {
    pub platform: Platform,
}

impl PlatformEffects {
    /// Effects for the given target platform.
    pub fn new(platform: Platform) -> (e: PlatformEffects)
        ensures
            e.platform == platform,
    {
        PlatformEffects { platform }
    }

    /// Apply `material` to the main window: effective only on macOS.
    /// On every other platform the result is the no-op action; the
    /// function is total, so an unsupported platform never raises.
    pub fn apply(&self, material: Material) -> (a: EffectAction)
        ensures
            self.platform == Platform::MacOs ==> a == EffectAction::Apply(material),
            self.platform != Platform::MacOs ==> a == EffectAction::NoOp,
    {
        match self.platform {
            Platform::MacOs => EffectAction::Apply(material),
            Platform::Other => EffectAction::NoOp,
        }
    }

    /// Theme-driven re-application, callable repeatedly at runtime: dark
    /// mode selects the dark material, light mode the default material,
    /// and off macOS the outcome is the no-op action, never an error.
    pub fn set_vibrancy(&self, is_dark_mode: bool) -> (a: EffectAction)
        ensures
            self.platform == Platform::MacOs ==> a == EffectAction::Apply(
                vibrancy_material(is_dark_mode),
            ),
            self.platform != Platform::MacOs ==> a == EffectAction::NoOp,
    {
        let material = select_vibrancy_material(is_dark_mode);
        self.apply(material)
    }
}

} // verus!
