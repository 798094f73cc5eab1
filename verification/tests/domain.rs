use rgytui::application::playlist::PlaylistUseCase;
use rgytui::domain::audio_mode::AudioMode;
use rgytui::domain::error::DomainError;
use rgytui::domain::loading_animation::LoadingAnimation;
use rgytui::domain::media::{format_clock, Playlist, RawSong, RepeatMode, Song};
use rgytui::domain::settings::{default_language, default_repeat_mode};

fn song(id: &str) -> Song {
    Song {
        id: id.to_string(),
        title: format!("Song {id}"),
        channel: "Test".into(),
        duration_secs: 120,
        thumbnail: None,
        webpage_url: format!("https://youtube.com/watch?v={id}"),
    }
}

fn current_id(p: &Playlist) -> Option<String> {
    p.current_song().map(|s| s.id.clone())
}

#[test]
fn audio_mode_exists_as_enum() {
    let audio = AudioMode::Audio;
    let video = AudioMode::Video;
    assert_ne!(audio, video);
}

#[test]
fn audio_mode_is_clone_copy_debug_partialeq() {
    let mode = AudioMode::Audio;
    let cloned = mode;
    assert_eq!(mode, cloned);
}

#[test]
fn audio_mode_variants_display() {
    assert_eq!(format!("{:?}", AudioMode::Audio), "Audio");
    assert_eq!(format!("{:?}", AudioMode::Video), "Video");
}

#[test]
fn audio_mode_from_bool_maps_true_to_video() {
    assert_eq!(AudioMode::from_bool(true), AudioMode::Video);
    assert_eq!(AudioMode::from_bool(false), AudioMode::Audio);
}

#[test]
fn loading_animation_defaults_to_pulse() {
    let anim = LoadingAnimation::from_str("anything");
    assert_eq!(anim.as_str(), "pulse");
    assert_eq!(LoadingAnimation::from_str("pulse"), LoadingAnimation);
}

#[test]
fn loading_animation_cycles_correctly() {
    assert_eq!(LoadingAnimation.next(), LoadingAnimation);
}

#[test]
fn loading_animation_display_names_are_not_empty() {
    assert!(!LoadingAnimation.display_name().is_empty());
    assert_eq!(LoadingAnimation.display_name(), "Pulse");
}

#[test]
fn playlist_default_is_empty_queue() {
    let p = Playlist::default();
    assert!(p.songs.is_empty());
    assert_eq!(p.name, "Queue");
    assert_eq!(p.current_index, 0);
    assert_eq!(p.version, 0);
}

#[test]
fn playlist_add_appends_song() {
    let mut p = Playlist::default();
    p.add(song("a"));
    assert_eq!(p.songs.len(), 1);
    assert_eq!(p.songs[0].id, "a");
}

#[test]
fn playlist_add_increments_version() {
    let mut p = Playlist::default();
    assert_eq!(p.version, 0);
    p.add(song("a"));
    assert_eq!(p.version, 1);
    p.add(song("b"));
    assert_eq!(p.version, 2);
}

#[test]
fn playlist_current_song_returns_none_when_empty() {
    let p = Playlist::default();
    assert!(p.current_song().is_none());
}

#[test]
fn playlist_current_song_returns_first_song_after_add() {
    let mut p = Playlist::default();
    p.add(song("a"));
    assert_eq!(current_id(&p).as_deref(), Some("a"));
}

#[test]
fn playlist_next_increments_index() {
    let mut p = Playlist::default();
    p.add(song("a"));
    p.add(song("b"));
    p.add(song("c"));
    assert_eq!(p.current_index, 0);
    p.next();
    assert_eq!(p.current_index, 1);
    assert_eq!(current_id(&p).as_deref(), Some("b"));
}

#[test]
fn playlist_next_at_end_without_repeat_returns_none() {
    let mut p = Playlist::default();
    p.add(song("a"));
    p.add(song("b"));
    p.next();
    assert!(p.next().is_none());
}

#[test]
fn playlist_next_wraps_with_repeat_all() {
    let mut p = Playlist { repeat_mode: RepeatMode::All, ..Default::default() };
    p.add(song("a"));
    p.add(song("b"));
    p.next();
    p.next();
    assert!(p.current_song().is_some());
    assert_eq!(p.current_index, 0);
}

#[test]
fn playlist_next_on_empty_returns_none() {
    let mut p = Playlist::default();
    assert!(p.next().is_none());
}

#[test]
fn playlist_previous_decrements_index() {
    let mut p = Playlist::default();
    p.add(song("a"));
    p.add(song("b"));
    p.set_current_index(1);
    p.previous();
    assert_eq!(p.current_index, 0);
    assert_eq!(current_id(&p).as_deref(), Some("a"));
}

#[test]
fn playlist_previous_at_start_without_repeat_returns_none() {
    let mut p = Playlist::default();
    p.add(song("a"));
    assert!(p.previous().is_none());
}

#[test]
fn playlist_previous_wraps_with_repeat_all() {
    let mut p = Playlist { repeat_mode: RepeatMode::All, ..Default::default() };
    p.add(song("a"));
    p.add(song("b"));
    p.previous();
    assert_eq!(p.current_index, 1);
}

#[test]
fn playlist_previous_on_empty_returns_none() {
    let mut p = Playlist::default();
    assert!(p.previous().is_none());
}

#[test]
fn playlist_remove_current_adjusts_index() {
    let mut p = Playlist::default();
    p.add(song("a"));
    p.add(song("b"));
    p.add(song("c"));
    p.set_current_index(1);
    p.remove(1);
    assert_eq!(p.songs.len(), 2);
    assert_eq!(current_id(&p).as_deref(), Some("c"));
}

#[test]
fn playlist_remove_before_current_shifts_index() {
    let mut p = Playlist::default();
    p.add(song("a"));
    p.add(song("b"));
    p.add(song("c"));
    p.set_current_index(2);
    p.remove(0);
    assert_eq!(p.current_index, 1);
    assert_eq!(current_id(&p).as_deref(), Some("c"));
}

#[test]
fn playlist_remove_after_current_does_not_affect_index() {
    let mut p = Playlist::default();
    p.add(song("a"));
    p.add(song("b"));
    p.add(song("c"));
    p.set_current_index(0);
    p.remove(2);
    assert_eq!(p.current_index, 0);
    assert_eq!(current_id(&p).as_deref(), Some("a"));
}

#[test]
fn playlist_remove_last_current_song_empty() {
    let mut p = Playlist::default();
    p.add(song("a"));
    p.remove(0);
    assert_eq!(p.songs.len(), 0);
    assert_eq!(p.current_index, 0);
    assert!(p.current_song().is_none());
}

#[test]
fn playlist_remove_out_of_range_does_nothing() {
    let mut p = Playlist::default();
    p.add(song("a"));
    let v = p.version;
    p.remove(10);
    assert_eq!(p.songs.len(), 1);
    assert_eq!(p.version, v);
}

#[test]
fn playlist_remove_increments_version() {
    let mut p = Playlist::default();
    p.add(song("a"));
    p.add(song("b"));
    let v = p.version;
    p.remove(0);
    assert!(p.version > v);
}

#[test]
fn playlist_clear_empties_all() {
    let mut p = Playlist::default();
    p.add(song("a"));
    p.add(song("b"));
    p.set_current_index(1);
    p.clear();
    assert!(p.songs.is_empty());
    assert_eq!(p.current_index, 0);
}

#[test]
fn playlist_clear_increments_version() {
    let mut p = Playlist::default();
    p.add(song("a"));
    let v = p.version;
    p.clear();
    assert!(p.version > v);
}

#[test]
fn playlist_len_reflects_song_count() {
    let mut p = Playlist::default();
    assert_eq!(p.len(), 0);
    p.add(song("a"));
    assert_eq!(p.len(), 1);
    p.add(song("b"));
    assert_eq!(p.len(), 2);
}

#[test]
fn playlist_set_current_index_valid() {
    let mut p = Playlist::default();
    p.add(song("a"));
    p.add(song("b"));
    p.set_current_index(1);
    assert_eq!(p.current_index, 1);
}

#[test]
fn playlist_set_current_index_out_of_bounds_does_not_change() {
    let mut p = Playlist::default();
    p.add(song("a"));
    p.set_current_index(5);
    assert_eq!(p.current_index, 0);
}

#[test]
fn playlist_set_current_index_empty_does_not_panic() {
    let mut p = Playlist::default();
    p.set_current_index(0);
    assert_eq!(p.current_index, 0);
}

#[test]
fn playlist_songs_returns_slice() {
    let mut p = Playlist::default();
    p.add(song("a"));
    let s = p.songs();
    assert_eq!(s.len(), 1);
    assert_eq!(s[0].id, "a");
}

#[test]
fn playlist_repeat_mode_default_is_none() {
    assert_eq!(RepeatMode::default(), RepeatMode::Off);
}

#[test]
fn playlist_repeat_mode_cycle() {
    assert_eq!(RepeatMode::Off.next(), RepeatMode::All);
    assert_eq!(RepeatMode::All.next(), RepeatMode::One);
    assert_eq!(RepeatMode::One.next(), RepeatMode::Off);
}

#[test]
fn repeat_mode_names_round_trip() {
    assert_eq!(RepeatMode::Off.as_str(), "None");
    assert_eq!(RepeatMode::All.as_str(), "All");
    assert_eq!(RepeatMode::One.as_str(), "One");
    for m in [RepeatMode::Off, RepeatMode::All, RepeatMode::One] {
        assert_eq!(RepeatMode::parse(m.as_str()), Some(m));
    }
    assert_eq!(RepeatMode::parse("bogus"), None);
}

#[test]
fn default_repeat_mode_is_none() {
    assert_eq!(default_repeat_mode(), RepeatMode::Off.as_str());
    assert_eq!(default_repeat_mode(), "None");
}

#[test]
fn default_language_is_english() {
    assert_eq!(default_language(), "en");
}

#[test]
fn repeat_all_playback_never_runs_out() {
    let mut p = Playlist { repeat_mode: RepeatMode::All, ..Default::default() };
    p.add(song("a"));
    p.add(song("b"));
    p.add(song("c"));
    for _ in 0..10 {
        assert!(p.next().is_some());
        assert!(p.current_index < p.len());
    }
}

#[test]
fn previous_undoes_next_inside_the_queue() {
    let mut p = Playlist::default();
    p.add(song("a"));
    p.add(song("b"));
    p.add(song("c"));
    p.next();
    let before = p.current_index;
    p.next();
    p.previous();
    assert_eq!(p.current_index, before);
}

#[test]
fn removing_another_song_keeps_the_current_one() {
    let mut p = Playlist::default();
    for id in ["a", "b", "c", "d"] {
        p.add(song(id));
    }
    p.set_current_index(2);
    p.remove(0);
    assert_eq!(current_id(&p).as_deref(), Some("c"));
    p.remove(2);
    assert_eq!(current_id(&p).as_deref(), Some("c"));
}

#[test]
fn position_of_finds_the_first_song_with_an_id() {
    let mut p = Playlist::default();
    p.add(song("a"));
    p.add(song("b"));
    assert_eq!(p.position_of("b"), Some(1));
    assert_eq!(p.position_of("z"), None);
}

#[test]
fn duration_is_formatted_as_minutes_and_seconds() {
    assert_eq!(format_clock(0), "00:00");
    assert_eq!(format_clock(65), "01:05");
    assert_eq!(format_clock(3600), "60:00");
    assert_eq!(format_clock(6001), "100:01");
    assert_eq!(song("a").duration_formatted(), "02:00");
}

#[test]
fn raw_song_fills_in_defaults() {
    let raw = RawSong {
        id: "xyz".into(),
        title: "T".into(),
        channel: None,
        uploader: Some("Up".into()),
        duration_secs: None,
        thumbnail: None,
        webpage_url: None,
    };
    let s = raw.into_song();
    assert_eq!(s.channel, "Up");
    assert_eq!(s.duration_secs, 0);
    assert_eq!(s.webpage_url, "https://youtube.com/watch?v=xyz");
    let raw = RawSong {
        id: "https://example.com/v".into(),
        title: "T".into(),
        channel: None,
        uploader: None,
        duration_secs: Some(7),
        thumbnail: None,
        webpage_url: None,
    };
    let s = raw.into_song();
    assert_eq!(s.channel, "Unknown");
    assert_eq!(s.webpage_url, "https://example.com/v");
}

#[test]
fn playlist_use_case_cycles_repeat_mode() {
    let mut uc = PlaylistUseCase::new();
    assert_eq!(uc.repeat_mode(), RepeatMode::Off);
    assert_eq!(uc.cycle_repeat_mode(), RepeatMode::All);
    assert_eq!(uc.cycle_repeat_mode(), RepeatMode::One);
    assert_eq!(uc.cycle_repeat_mode(), RepeatMode::Off);
    uc.add(song("a"));
    assert!(uc.has_current_song());
    assert_eq!(uc.current_song_cloned().map(|s| s.id), Some("a".to_string()));
}

#[test]
fn domain_error_messages_name_their_kind() {
    assert_eq!(DomainError::Audio("boom".into()).message(), "Audio error: boom");
    assert_eq!(DomainError::Player("stuck".into()).message(), "Player error: stuck");
    assert_eq!(DomainError::Other("plain".into()).message(), "plain");
}
