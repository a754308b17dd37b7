use app_bootstrap::effects::{
    select_vibrancy_material, EffectAction, Material, Platform, PlatformEffects,
};

#[test]
fn dark_mode_selects_ultra_dark() {
    assert_eq!(select_vibrancy_material(true), Material::UltraDark);
}

#[test]
fn light_mode_selects_under_window_background() {
    assert_eq!(select_vibrancy_material(false), Material::UnderWindowBackground);
}

#[test]
fn apply_on_macos_applies_each_material() {
    let effects = PlatformEffects::new(Platform::MacOs);
    assert_eq!(
        effects.apply(Material::HudWindow),
        EffectAction::Apply(Material::HudWindow)
    );
    assert_eq!(
        effects.apply(Material::UltraDark),
        EffectAction::Apply(Material::UltraDark)
    );
    assert_eq!(
        effects.apply(Material::UnderWindowBackground),
        EffectAction::Apply(Material::UnderWindowBackground)
    );
}

#[test]
fn apply_off_macos_is_a_no_op_and_never_raises() {
    let effects = PlatformEffects::new(Platform::Other);
    assert_eq!(effects.apply(Material::HudWindow), EffectAction::NoOp);
    assert_eq!(effects.apply(Material::UltraDark), EffectAction::NoOp);
    assert_eq!(
        effects.apply(Material::UnderWindowBackground),
        EffectAction::NoOp
    );
}

#[test]
fn set_vibrancy_on_macos_follows_the_theme() {
    let effects = PlatformEffects::new(Platform::MacOs);
    assert_eq!(
        effects.set_vibrancy(true),
        EffectAction::Apply(Material::UltraDark)
    );
    assert_eq!(
        effects.set_vibrancy(false),
        EffectAction::Apply(Material::UnderWindowBackground)
    );
}

#[test]
fn set_vibrancy_off_macos_is_a_no_op_for_both_themes() {
    let effects = PlatformEffects::new(Platform::Other);
    assert_eq!(effects.set_vibrancy(true), EffectAction::NoOp);
    assert_eq!(effects.set_vibrancy(false), EffectAction::NoOp);
}
