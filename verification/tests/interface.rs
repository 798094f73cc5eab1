use rgytui::domain::media::RepeatMode;
use rgytui::interface::i18n::{I18nPort, Translations};
use rgytui::interface::notification::{Notification, NotificationLevel, NotificationState};
use rgytui::interface::state::{QueueViewState, SettingsState};
use rgytui::interface::status_bar::repeat_label;
use rgytui::interface::theme::{dimmed_rgb, parse_hex, Color, Theme};

#[derive(Debug)]
struct MockI18n;

impl I18nPort for MockI18n {
    fn t(&self, key: &str) -> String {
        format!("[{}]", key)
    }
    fn language(&self) -> &str {
        "en"
    }
}

#[test]
fn i18n_port_t_returns_translated_key() {
    let i18n = MockI18n;
    assert_eq!(i18n.t("hello"), "[hello]");
}

#[test]
fn i18n_port_language_returns_code() {
    let i18n = MockI18n;
    assert_eq!(i18n.language(), "en");
}

#[test]
fn test_detect_locale_returns_string() {
    let locale = Translations::detect_locale();
    assert!(!locale.is_empty(), "locale should not be empty");
    assert_eq!(locale.len(), 2, "locale should be a two-letter code");
}

#[test]
fn test_load_spanish_translations() {
    let t = Translations::load("es");
    let subtitle = t.t("app_subtitle");
    assert_eq!(subtitle, "Reproductor de Música YouTube",
        "Spanish subtitle should be translated, got '{}'", subtitle);
}

#[test]
fn test_load_english_translations() {
    let t = Translations::load("en");
    assert_eq!(t.t("app_subtitle"), "YouTube Music Player");
}

#[test]
fn test_unsupported_locale_falls_back_to_english() {
    let t = Translations::load("fr");
    assert_eq!(t.t("app_subtitle"), "YouTube Music Player");
}

#[test]
fn test_load_auto_detects_locale() {
    let t = Translations::load_auto();
    assert!(!t.language().is_empty(), "auto-detected language should not be empty");
    assert!(t.language() == "en" || t.language() == "es",
        "auto-detected language should be 'en' or 'es', got '{}'", t.language());
    let subtitle = t.t("app_subtitle");
    assert!(!subtitle.is_empty(), "auto-loaded translations should have 'app_subtitle' key");
}

#[test]
fn test_language_getter() {
    let t = Translations::load("es");
    assert_eq!(t.language(), "es");
    let t = Translations::load("en");
    assert_eq!(t.language(), "en");
}

#[test]
fn missing_keys_stand_for_themselves() {
    let t = Translations::load("en");
    assert_eq!(t.t("no_such_key"), "no_such_key");
}

#[test]
fn locale_names_give_lowercase_language_codes() {
    assert_eq!(Translations::language_of_locale(Some("ES-es".into())), "es");
    assert_eq!(Translations::language_of_locale(Some("en-US".into())), "en");
    assert_eq!(Translations::language_of_locale(Some("C".into())), "en");
    assert_eq!(Translations::language_of_locale(None), "en");
}

#[test]
fn repeat_label_maps_every_mode_to_translation() {
    let en = Translations::load("en");
    assert_eq!(repeat_label(&en, RepeatMode::Off), "🔁 None");
    assert_eq!(repeat_label(&en, RepeatMode::All), "🔁 All");
    assert_eq!(repeat_label(&en, RepeatMode::One), "🔂 One");

    let es = Translations::load("es");
    assert_eq!(repeat_label(&es, RepeatMode::Off), "🔁 Ninguno");
    assert_eq!(repeat_label(&es, RepeatMode::All), "🔁 Todo");
    assert_eq!(repeat_label(&es, RepeatMode::One), "🔂 Una");
}

#[test]
fn notifications_expire_after_their_lifetime() {
    let info = Notification::new_at("hi".into(), NotificationLevel::Info, 1000);
    assert_eq!(info.duration_ms, 4000);
    assert!(!info.expired_at(5000));
    assert!(info.expired_at(5001));
    let err = Notification::new_at("bad".into(), NotificationLevel::Error, 1000);
    assert_eq!(err.duration_ms, 8000);
    assert!(!err.expired_at(9000));
    assert!(err.expired_at(9001));
}

#[test]
fn notification_icons_follow_the_level() {
    assert_eq!(Notification::new_at("a".into(), NotificationLevel::Info, 0).icon(), "ℹ");
    assert_eq!(Notification::new_at("a".into(), NotificationLevel::Success, 0).icon(), "✓");
    assert_eq!(Notification::new_at("a".into(), NotificationLevel::Warning, 0).icon(), "⚠");
    assert_eq!(Notification::new_at("a".into(), NotificationLevel::Error, 0).icon(), "✕");
}

#[test]
fn notification_state_keeps_at_most_five() {
    let mut s = NotificationState::new();
    for i in 0..8u64 {
        s.push_at(format!("n{i}"), NotificationLevel::Info, i);
    }
    let active = s.active_at(10);
    assert_eq!(active.len(), 5);
    assert_eq!(active[0].message, "n3");
    assert_eq!(active[4].message, "n7");
}

#[test]
fn notification_state_dismisses_expired() {
    let mut s = NotificationState::new();
    s.push_at("old".into(), NotificationLevel::Info, 0);
    s.push_at("new".into(), NotificationLevel::Info, 3000);
    s.dismiss_old_at(5001);
    let active = s.active_at(5001);
    assert_eq!(active.len(), 1);
    assert_eq!(active[0].message, "new");
}

#[test]
fn view_states_start_at_the_top() {
    assert_eq!(QueueViewState::new().queue_selected, 0);
    assert_eq!(SettingsState::new().settings_focus, 0);
}

#[test]
fn hex_colors_parse_with_or_without_hash() {
    assert_eq!(parse_hex("#ff8000"), Color::Rgb(255, 128, 0));
    assert_eq!(parse_hex("00ff00"), Color::Rgb(0, 255, 0));
    assert_eq!(parse_hex("zz"), Color::Cyan);
    assert_eq!(parse_hex("#12345g"), Color::Cyan);
}

#[test]
fn dimmed_rgb_keeps_a_fifth() {
    assert_eq!(dimmed_rgb((255, 90, 3)), (51, 18, 0));
}

#[test]
fn themes_use_the_accent() {
    let t = Theme::from_settings("dark", "#112233");
    assert_eq!(t.accent, Color::Rgb(0x11, 0x22, 0x33));
}
