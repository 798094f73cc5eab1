use rgytui::application::playlist::PlaylistUseCase;
use rgytui::audio::HealthWatch;
use rgytui::domain::audio_mode::AudioMode;
use rgytui::domain::media::RepeatMode;
use rgytui::events::{resolve_idx, scroll_offset};
use rgytui::interface::format::display_path;
use rgytui::interface::i18n::Translations;
use rgytui::domain::media::Song;
use rgytui::interface::state::{ActiveScreen, Focus, UiState};
use rgytui::interface::theme::accent_splits_a_char;
use rgytui::search::{SearchCache, SearchStart};
use rgytui::session::Rect;

#[test]
fn display_path_keeps_short_path() {
    assert_eq!(display_path("/home/user/Music"), "/home/user/Music");
    let forty = "a".repeat(40);
    assert_eq!(display_path(&forty), forty);
}

#[test]
fn display_path_cuts_long_ascii_path_to_last_37_bytes() {
    let path = format!("{}{}", "a".repeat(13), "b".repeat(37));
    assert_eq!(display_path(&path), format!("...{}", "b".repeat(37)));
}

#[test]
fn display_path_cuts_at_character_boundary() {
    // 25 two-byte characters: the cut at byte 13 moves on to byte 14.
    let path = "é".repeat(25);
    assert_eq!(display_path(&path), format!("...{}", "é".repeat(18)));
}

#[test]
fn scroll_offset_follows_selection_until_last_page() {
    assert_eq!(scroll_offset(5, 20, 10), 5);
    assert_eq!(scroll_offset(15, 20, 10), 10);
    assert_eq!(scroll_offset(3, 5, 10), 0);
}

#[test]
fn resolve_idx_maps_clicked_row_to_item() {
    let rect = Rect { x: 0, y: 2, width: 40, height: 12 };
    // ten visible rows, list scrolled to the selection (4)
    assert_eq!(resolve_idx(rect, 3, 4, 30), 4);
    assert_eq!(resolve_idx(rect, 5, 4, 30), 6);
    // the border rows keep the selection
    assert_eq!(resolve_idx(rect, 2, 4, 30), 4);
    assert_eq!(resolve_idx(rect, 13, 4, 30), 4);
}

#[test]
fn restore_repeat_mode_applies_saved_mode() {
    let mut uc = PlaylistUseCase::new();
    uc.restore_repeat_mode("All");
    assert_eq!(uc.repeat_mode(), RepeatMode::All);
    uc.restore_repeat_mode("One");
    assert_eq!(uc.repeat_mode(), RepeatMode::One);
}

#[test]
fn restore_repeat_mode_ignores_none_and_unknown() {
    let mut uc = PlaylistUseCase::new();
    uc.restore_repeat_mode("One");
    uc.restore_repeat_mode("None");
    assert_eq!(uc.repeat_mode(), RepeatMode::One);
    uc.restore_repeat_mode("sometimes");
    assert_eq!(uc.repeat_mode(), RepeatMode::One);
}

#[test]
fn audio_mode_at_startup_needs_mpv_for_video() {
    assert_eq!(AudioMode::at_startup(true, true), AudioMode::Video);
    assert_eq!(AudioMode::at_startup(true, false), AudioMode::Audio);
    assert_eq!(AudioMode::at_startup(false, true), AudioMode::Audio);
}

#[test]
fn startup_language_keeps_explicit_choice() {
    assert_eq!(Translations::startup_language("es"), "es");
    assert_eq!(Translations::startup_language("fr"), "fr");
}

#[test]
fn restart_tracking_forgets_position_history() {
    let mut w = HealthWatch::new();
    w.last_health_check_ms = Some(100);
    w.last_pos_moved_ms = Some(90);
    w.last_device_check_ms = Some(80);
    w.restart_tracking(5_000);
    assert_eq!(w.last_pos_ns, 5_000);
    assert_eq!(w.last_pos_moved_ms, None);
    assert_eq!(w.last_health_check_ms, None);
    assert_eq!(w.last_device_check_ms, Some(80));
}

#[test]
fn from_entries_looks_up_the_first_pair_of_a_key() {
    let t = Translations::from_entries(
        vec![("hi".to_string(), "hola".to_string()), ("hi".to_string(), "buenas".to_string())],
        "es".to_string(),
    );
    assert_eq!(t.t("hi"), "hola");
    assert_eq!(t.t("missing"), "missing");
    assert_eq!(t.language(), "es");
}

#[test]
fn accent_splits_a_char_matches_byte_slicing() {
    assert!(!accent_splits_a_char("#00ffff"));
    assert!(!accent_splits_a_char("##abc"));
    assert!(accent_splits_a_char("#aéaaa"));
    assert!(!accent_splits_a_char("ééé"));
    assert!(accent_splits_a_char("a€aa"));
}

#[test]
fn ui_state_default_starts_clean() {
    let u = UiState::default();
    assert_eq!(u.active_screen, ActiveScreen::Search);
    assert_eq!(u.focus, Focus::SearchInput);
    assert_eq!(u.search.selected_index, 0);
    assert!(!u.search.is_searching);
    assert_eq!(u.config.accent_color, "#00ffff");
    assert_eq!(u.config.default_search_limit, 10);
    assert!(u.player.loading_status.is_none());
    assert_eq!(u.download.download_format, 0);
}

#[test]
fn get_or_create_theme_caches_the_theme() {
    let mut u = UiState::default();
    assert!(u.config.cached_theme.is_none());
    let t = u.get_or_create_theme();
    assert_eq!(u.config.cached_theme, Some(t));
    assert_eq!(u.get_or_create_theme(), t);
}

fn one_song() -> Song {
    Song {
        id: "a".into(),
        title: "t".into(),
        channel: "c".into(),
        duration_secs: 1,
        thumbnail: None,
        webpage_url: "u".into(),
    }
}

#[test]
fn a_search_within_a_minute_is_answered_from_the_cache() {
    let mut c = SearchCache::new();
    let key = match c.begin_search("lofi", 5, 0) {
        SearchStart::Run(k) => k,
        SearchStart::Cached(_) => panic!("empty cache answered"),
    };
    assert_eq!(key, "5:lofi");
    c.finish_search(key, true, "", vec![one_song()], 1_000).unwrap();
    assert!(matches!(c.begin_search("lofi", 5, 30_000), SearchStart::Cached(ref v) if v.len() == 1));
    assert!(matches!(c.begin_search("lofi", 5, 61_000), SearchStart::Run(_)));
}

#[test]
fn a_failed_search_is_not_cached() {
    let mut c = SearchCache::new();
    assert!(c.finish_search("5:lofi".to_string(), false, "boom", Vec::new(), 0).is_err());
    assert!(matches!(c.begin_search("lofi", 5, 10), SearchStart::Run(_)));
}
