//! The startup sequence: which plugins are registered in what order,
//! which effect the window receives, and how a launch resolves under
//! the single-instance guard.

use crate::effects::{EffectAction, Material, Platform, PlatformEffects};
use vstd::prelude::*;

verus! {

/// A capability plugin registered during bootstrap.
#[derive(Clone, Copy, Debug, PartialEq, Eq, Structural)]
pub enum Plugin {
    /// Process-wide single-instance guard. The host framework requires
    /// it to be registered before every other plugin.
    InstanceGuard,
    /// OS-level URL-scheme association.
    DeepLink,
    /// Shell access for the front end.
    Shell,
    /// Filesystem access for the front end (variant-dependent).
    Fs,
}

/// The host framework's ordering contract: the instance guard never
/// follows another plugin in the registration sequence. Registering it
/// later leaves duplicate-instance behaviour undefined.
pub open spec fn registration_ok(plugins: Seq<Plugin>) -> bool {
    forall|i: int| 0 < i < plugins.len() ==> plugins[i] != Plugin::InstanceGuard
}

/// The registration sequence of a variant: the instance guard first on
/// desktop targets (mobile targets skip it), then the filesystem
/// capability where the variant has one, then deep links and shell.
pub open spec fn plugin_seq(desktop: bool, with_fs: bool) -> Seq<Plugin> {
    if desktop {
        if with_fs {
            seq![Plugin::InstanceGuard, Plugin::Fs, Plugin::DeepLink, Plugin::Shell]
        } else {
            seq![Plugin::InstanceGuard, Plugin::DeepLink, Plugin::Shell]
        }
    } else {
        if with_fs {
            seq![Plugin::Fs, Plugin::DeepLink, Plugin::Shell]
        } else {
            seq![Plugin::DeepLink, Plugin::Shell]
        }
    }
}

/// Every variant's registration sequence honours the ordering contract,
/// and on desktop targets the instance guard is the first plugin.
pub proof fn lemma_plan_guard_first(desktop: bool, with_fs: bool)
    ensures
        registration_ok(plugin_seq(desktop, with_fs)),
        desktop ==> plugin_seq(desktop, with_fs)[0] == Plugin::InstanceGuard,
{
    assert forall|i: int| 0 < i < plugin_seq(desktop, with_fs).len() implies plugin_seq(
        desktop,
        with_fs,
    )[i] != Plugin::InstanceGuard by {}
}

/// Check a registration sequence against the ordering contract.
pub fn registration_order_ok(plugins: &Vec<Plugin>) -> (b: bool)
    ensures
        b == registration_ok(plugins@),
{
    let mut i: usize = 1;
    while i < plugins.len()
        invariant
            1 <= i,
            forall|j: int| 0 < j < i && j < plugins@.len() ==> plugins@[j] != Plugin::InstanceGuard,
        decreases plugins.len() - i,
    {
        if plugins[i] == Plugin::InstanceGuard {
            return false;
        }
        i = i + 1;
    }
    true
}

/// Per-variant bootstrap configuration.
#[derive(Clone, Copy, Debug, PartialEq, Eq, Structural)]
pub struct BootstrapConfig {
    /// Desktop targets register the instance guard; mobile ones do not.
    pub desktop: bool,
    /// Whether the variant exposes the filesystem capability.
    pub with_fs: bool,
    /// The target platform, for the startup effect.
    pub platform: Platform,
    /// The variant's fixed startup material.
    pub startup_material: Material,
}

/// Everything the host layer performs during setup, decided up front:
/// the ordered plugin registrations and the startup window effect.
pub struct BootstrapPlan {
    pub plugins: Vec<Plugin>,
    pub startup_effect: EffectAction,
}

/// Decide the setup sequence for a variant. The plugin order always
/// honours the host's ordering contract, and the startup effect applies
/// the variant's material exactly when the platform is macOS.
pub fn bootstrap_plan(cfg: &BootstrapConfig) -> (plan: BootstrapPlan)
    ensures
        plan.plugins@ == plugin_seq(cfg.desktop, cfg.with_fs),
        registration_ok(plan.plugins@),
        cfg.platform == Platform::MacOs ==> plan.startup_effect == EffectAction::Apply(
            cfg.startup_material,
        ),
        cfg.platform != Platform::MacOs ==> plan.startup_effect == EffectAction::NoOp,
{
    let mut plugins: Vec<Plugin> = Vec::new();
    if cfg.desktop {
        plugins.push(Plugin::InstanceGuard);
    }
    if cfg.with_fs {
        plugins.push(Plugin::Fs);
    }
    plugins.push(Plugin::DeepLink);
    plugins.push(Plugin::Shell);
    proof {
        assert(plugins@ =~= plugin_seq(cfg.desktop, cfg.with_fs));
        lemma_plan_guard_first(cfg.desktop, cfg.with_fs);
    }
    let effects = PlatformEffects::new(cfg.platform);
    let startup_effect = effects.apply(cfg.startup_material);
    BootstrapPlan { plugins, startup_effect }
}

/// How one process launch resolves under the single-instance guard.
#[derive(Clone, Copy, Debug, PartialEq, Eq, Structural)]
pub struct LaunchOutcome {
    /// A main window is created for this process.
    pub window_created: bool,
    /// The launch arguments are forwarded to the running instance.
    pub args_forwarded: bool,
    /// Focus is requested on the running instance's main window.
    pub focus_requested: bool,
    /// This process exits without entering the event loop.
    pub exits: bool,
}

/// Decide a launch. `already_running` says whether another instance
/// holds the process-wide singleton; `main_window_exists` whether the
/// running instance's main window can be found. A primary launch
/// creates the main window and proceeds; a secondary launch creates no
/// window, forwards its arguments, requests focus on the existing main
/// window where there is one, and exits.
pub fn resolve_launch(already_running: bool, main_window_exists: bool) -> (o: LaunchOutcome)
    ensures
        o.window_created == !already_running,
        o.args_forwarded == already_running,
        o.focus_requested == (already_running && main_window_exists),
        o.exits == already_running,
{
    LaunchOutcome {
        window_created: !already_running,
        args_forwarded: already_running,
        focus_requested: already_running && main_window_exists,
        exits: already_running,
    }
}

} // verus!
