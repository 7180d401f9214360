use ely_app::appearance::{next_theme_mode, ThemeMode};

#[test]
fn theme_toggle_cycles_system_light_dark() {
    assert_eq!(next_theme_mode(ThemeMode::System), ThemeMode::Light);
    assert_eq!(next_theme_mode(ThemeMode::Light), ThemeMode::Dark);
    assert_eq!(next_theme_mode(ThemeMode::Dark), ThemeMode::System);
    let mut mode = ThemeMode::Light;
    for _ in 0..3 {
        mode = next_theme_mode(mode);
    }
    assert_eq!(mode, ThemeMode::Light);
}
