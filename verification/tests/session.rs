use rgytui::application::playlist::PlaylistUseCase;
use rgytui::domain::audio_mode::AudioMode;
use rgytui::domain::media::{RepeatMode, Song};
use rgytui::domain::player_state::PlayerState;
use rgytui::events::{MouseInput, MouseKind};
use rgytui::interface::i18n::Translations;
use rgytui::interface::state::{ActiveScreen, Focus, UiState};
use rgytui::session::{AppEvent, Effect, Key, KeyCode, KeyContext, KeyOutcome, PlayCommand, Rect, Session};

fn song(id: u32) -> Song {
    Song {
        id: format!("id-{id}"),
        title: format!("Song {id}"),
        channel: "Test".into(),
        duration_secs: 100,
        thumbnail: None,
        webpage_url: "http://example.com".into(),
    }
}

fn songs(count: u32) -> Vec<Song> {
    (0..count).map(song).collect()
}

fn session() -> Session {
    let mut ui = UiState::default();
    ui.config.translations = Translations::load("es");
    Session::new(ui, PlaylistUseCase::new())
}

fn ctx(now_ms: u64) -> KeyContext {
    KeyContext { now_ms, player_state: PlayerState::Stopped, mode: AudioMode::Audio }
}

fn key(c: char) -> Key {
    Key { code: KeyCode::Char(c), ctrl: false }
}

fn ctrl(c: char) -> Key {
    Key { code: KeyCode::Char(c), ctrl: true }
}

fn code(k: KeyCode) -> Key {
    Key { code: k, ctrl: false }
}

fn press(s: &mut Session, k: Key) -> KeyOutcome {
    s.handle_key(k, ctx(1_000))
}

fn click(s: &mut Session, col: u16, row: u16, now_ms: u64) -> Vec<Effect> {
    s.handle_mouse(MouseInput { kind: MouseKind::LeftDown, column: col, row }, now_ms)
}

fn list_rect() -> Option<Rect> {
    Some(Rect { x: 0, y: 3, width: 100, height: 30 })
}

#[test]
fn test_update_progress_guard_with_no_song() {
    let mut s = session();
    s.ui.player.current_song = None;
    for x in songs(3) {
        s.playlist.add(x);
    }
    assert!(!s.needs_progress_poll());
    let effects = s.on_progress(Ok(()), PlayerState::Playing, true, 0);
    assert!(effects.is_empty());
    assert!(s.pending_play.is_none(), "no auto-advance when no song loaded");
}

#[test]
fn progress_advances_to_the_next_song_when_the_sink_runs_dry() {
    let mut s = session();
    for x in songs(3) {
        s.playlist.add(x);
    }
    s.ui.player.current_song = Some(song(0));
    let effects = s.on_progress(Ok(()), PlayerState::Playing, true, 0);
    assert!(matches!(effects.as_slice(), [Effect::Stop]));
    assert_eq!(s.pending_play.as_ref().map(|x| x.id.clone()), Some("id-1".to_string()));
    assert_eq!(s.playlist.playlist.current_index, 1);
}

#[test]
fn progress_under_repeat_one_replays_the_same_song() {
    let mut s = session();
    for x in songs(3) {
        s.playlist.add(x);
    }
    s.playlist.set_repeat_mode(RepeatMode::One);
    s.ui.player.current_song = Some(song(0));
    let generation = s.play_generation;
    s.on_progress(Ok(()), PlayerState::Playing, true, 0);
    assert_eq!(s.pending_play.as_ref().map(|x| x.id.clone()), Some("id-0".to_string()));
    assert_eq!(s.play_generation, generation + 1);
}

#[test]
fn progress_at_the_end_of_the_queue_clears_the_song() {
    let mut s = session();
    s.playlist.add(song(0));
    s.ui.player.current_song = Some(song(0));
    s.on_progress(Ok(()), PlayerState::Playing, true, 0);
    assert!(s.ui.player.current_song.is_none());
    assert!(s.pending_play.is_none());
}

#[test]
fn a_failed_health_check_is_a_playback_error() {
    let mut s = session();
    s.ui.player.current_song = Some(song(0));
    s.on_progress(Err("device lost".into()), PlayerState::Playing, false, 0);
    assert!(s.ui.player.current_song.is_none());
    let shown = s.ui.notifications.active_at(0);
    assert_eq!(shown.len(), 1);
    assert!(shown[0].message.contains("device lost"));
}

#[test]
fn test_ctrl_c_triggers_exit() {
    let mut s = session();
    let o = press(&mut s, ctrl('c'));
    assert!(o.exit, "Ctrl+C should signal exit when no download active");
}

#[test]
fn test_ctrl_c_with_active_download_sends_confirm_event() {
    let mut s = session();
    s.pending_play = Some(song(9));
    let o = press(&mut s, ctrl('c'));
    assert!(!o.exit, "Ctrl+C with active download should NOT signal exit");
    assert!(matches!(o.effects.as_slice(), [Effect::ConfirmExit]));
}

#[test]
fn test_ctrl_c_with_pending_download_shows_confirmation_via_event() {
    let mut s = session();
    s.ui.download.download_pending = Some((song(9), "dir".into(), "mp3".into()));
    assert!(!s.ui.show_exit_confirmation);
    let o = press(&mut s, ctrl('c'));
    assert!(!o.exit);
    assert!(matches!(o.effects.as_slice(), [Effect::ConfirmExit]));
    s.handle_event(AppEvent::ShowConfirmExit, AudioMode::Audio, 0);
    assert!(s.ui.show_exit_confirmation, "flag should be true after ShowConfirmExit");
}

#[test]
fn test_exit_confirmation_y_exits() {
    let mut s = session();
    s.ui.show_exit_confirmation = true;
    let o = press(&mut s, key('y'));
    assert!(o.exit);
    assert!(!s.ui.show_exit_confirmation);
}

#[test]
fn test_exit_confirmation_n_clears() {
    let mut s = session();
    s.ui.show_exit_confirmation = true;
    let o = press(&mut s, key('n'));
    assert!(!o.exit);
    assert!(!s.ui.show_exit_confirmation);
}

#[test]
fn test_exit_confirmation_esc_clears() {
    let mut s = session();
    s.ui.show_exit_confirmation = true;
    let o = press(&mut s, code(KeyCode::Esc));
    assert!(!o.exit);
    assert!(!s.ui.show_exit_confirmation);
}

#[test]
fn test_exit_confirmation_other_keys_ignored() {
    let mut s = session();
    s.ui.show_exit_confirmation = true;
    let o = press(&mut s, key(' '));
    assert!(!o.exit);
    assert!(s.ui.show_exit_confirmation);
}

#[test]
fn test_regular_c_still_works() {
    let mut s = session();
    let o = press(&mut s, key('c'));
    assert!(!o.exit, "Regular 'c' should not signal exit");
}

#[test]
fn test_ctrl_q_still_works() {
    let mut s = session();
    let o = press(&mut s, ctrl('q'));
    assert!(o.exit);
}

#[test]
fn test_error_clears_current_song() {
    let mut s = session();
    s.ui.player.current_song = Some(song(1));
    let generation = s.play_generation;
    s.handle_event(AppEvent::PlaybackError { message: "Something went wrong".into(), generation },
        AudioMode::Video, 0);
    assert!(s.ui.player.current_song.is_none());
}

#[test]
fn a_stale_playback_error_is_ignored() {
    let mut s = session();
    s.queue_play(song(1));
    s.handle_event(AppEvent::PlaybackError { message: "old".into(), generation: 0 }, AudioMode::Video, 0);
    assert!(s.ui.player.current_song.is_some());
}

#[test]
fn test_audio_download_error_clears_current_song() {
    let mut s = session();
    s.ui.player.current_song = Some(song(1));
    let generation = s.play_generation;
    s.handle_event(AppEvent::AudioDownloadError { message: "Download failed".into(), generation },
        AudioMode::Audio, 0);
    assert!(s.ui.player.current_song.is_none());
}

#[test]
fn test_error_then_retry_same_song_sets_loading() {
    let mut s = session();
    let x = song(7);
    s.playlist.add(x.clone());
    s.playlist.set_current_index(0);
    let generation = s.play_generation;
    s.handle_event(AppEvent::PlaybackError { message: "Failed".into(), generation }, AudioMode::Video, 0);
    assert!(s.ui.player.current_song.is_none());
    s.ui.search.search_results.push(x);
    s.schedule_play_selected(0);
    assert!(s.pending_play.is_some(), "retry should set pending_play");
}

#[test]
fn audio_for_the_current_song_is_played() {
    let mut s = session();
    s.queue_play(song(1));
    let generation = s.play_generation;
    let r = s.handle_event(AppEvent::AudioReady { song: song(1), data: vec![1, 2], generation }, AudioMode::Audio, 0);
    assert!(matches!(r, Some(PlayCommand::Bytes { .. })));
    let r = s.handle_event(AppEvent::AudioReady { song: song(2), data: vec![1], generation }, AudioMode::Audio, 0);
    assert!(r.is_none(), "audio of another song is dropped");
}

#[test]
fn test_j_navigates_down_in_search_results() {
    let mut s = session();
    s.ui.focus = Focus::SearchResults;
    s.ui.search.search_results = songs(5);
    s.ui.search.selected_index = 1;
    let o = press(&mut s, key('j'));
    assert!(!o.exit);
    assert_eq!(s.ui.search.selected_index, 2);
}

#[test]
fn test_k_navigates_up_in_search_results() {
    let mut s = session();
    s.ui.focus = Focus::SearchResults;
    s.ui.search.search_results = songs(5);
    s.ui.search.selected_index = 3;
    press(&mut s, key('k'));
    assert_eq!(s.ui.search.selected_index, 2);
}

#[test]
fn test_j_in_queue_list() {
    let mut s = session();
    s.ui.focus = Focus::QueueList;
    for x in songs(5) {
        s.playlist.add(x);
    }
    s.ui.queue.queue_selected = 1;
    press(&mut s, key('j'));
    assert_eq!(s.ui.queue.queue_selected, 2);
}

#[test]
fn test_k_in_queue_list() {
    let mut s = session();
    s.ui.focus = Focus::QueueList;
    for x in songs(5) {
        s.playlist.add(x);
    }
    s.ui.queue.queue_selected = 3;
    press(&mut s, key('k'));
    assert_eq!(s.ui.queue.queue_selected, 2);
}

#[test]
fn test_j_in_search_input_types_char() {
    let mut s = session();
    s.ui.focus = Focus::SearchInput;
    press(&mut s, key('j'));
    assert_eq!(s.ui.search.search_query, "j");
}

#[test]
fn test_k_in_search_input_types_char() {
    let mut s = session();
    s.ui.focus = Focus::SearchInput;
    press(&mut s, key('k'));
    assert_eq!(s.ui.search.search_query, "k");
}

#[test]
fn test_j_at_bottom_does_not_overflow() {
    let mut s = session();
    s.ui.focus = Focus::SearchResults;
    s.ui.search.search_results = songs(3);
    s.ui.search.selected_index = 2;
    press(&mut s, key('j'));
    assert_eq!(s.ui.search.selected_index, 2);
}

#[test]
fn test_k_at_top_does_not_underflow() {
    let mut s = session();
    s.ui.focus = Focus::SearchResults;
    s.ui.search.search_results = songs(3);
    s.ui.search.selected_index = 0;
    press(&mut s, key('k'));
    assert_eq!(s.ui.search.selected_index, 0);
}

#[test]
fn test_g_goes_to_top_in_search() {
    let mut s = session();
    s.ui.focus = Focus::SearchResults;
    s.ui.search.search_results = songs(10);
    s.ui.search.selected_index = 7;
    press(&mut s, key('g'));
    assert_eq!(s.ui.search.selected_index, 0);
}

#[test]
fn test_g_capital_goes_to_bottom_in_search() {
    let mut s = session();
    s.ui.focus = Focus::SearchResults;
    s.ui.search.search_results = songs(10);
    press(&mut s, key('G'));
    assert_eq!(s.ui.search.selected_index, 9);
}

#[test]
fn test_g_goes_to_top_in_queue() {
    let mut s = session();
    s.ui.focus = Focus::QueueList;
    for x in songs(10) {
        s.playlist.add(x);
    }
    s.ui.queue.queue_selected = 5;
    press(&mut s, key('g'));
    assert_eq!(s.ui.queue.queue_selected, 0);
}

#[test]
fn test_g_capital_goes_to_bottom_in_queue() {
    let mut s = session();
    s.ui.focus = Focus::QueueList;
    for x in songs(10) {
        s.playlist.add(x);
    }
    press(&mut s, key('G'));
    assert_eq!(s.ui.queue.queue_selected, 9);
}

#[test]
fn test_g_on_empty_list_does_not_panic() {
    let mut s = session();
    s.ui.focus = Focus::SearchResults;
    press(&mut s, key('g'));
    assert_eq!(s.ui.search.selected_index, 0);
}

#[test]
fn test_g_capital_on_empty_list_does_not_panic() {
    let mut s = session();
    s.ui.focus = Focus::SearchResults;
    press(&mut s, key('G'));
    assert_eq!(s.ui.search.selected_index, 0);
}

#[test]
fn test_g_in_search_input_types_char() {
    let mut s = session();
    s.ui.focus = Focus::SearchInput;
    press(&mut s, key('g'));
    assert_eq!(s.ui.search.search_query, "g");
}

#[test]
fn test_ctrl_d_scrolls_down_half_page() {
    let mut s = session();
    s.ui.focus = Focus::SearchResults;
    s.ui.search.search_results = songs(30);
    press(&mut s, ctrl('d'));
    assert_eq!(s.ui.search.selected_index, 10);
}

#[test]
fn test_ctrl_u_scrolls_up_half_page() {
    let mut s = session();
    s.ui.focus = Focus::SearchResults;
    s.ui.search.search_results = songs(30);
    s.ui.search.selected_index = 25;
    press(&mut s, ctrl('u'));
    assert_eq!(s.ui.search.selected_index, 15);
}

#[test]
fn test_ctrl_d_does_not_conflict_with_download() {
    let mut s = session();
    s.ui.focus = Focus::SearchResults;
    s.ui.search.search_results = songs(10);
    s.ui.search.selected_index = 5;
    press(&mut s, ctrl('d'));
    assert!(!s.ui.download.show_download_popup);
    assert_eq!(s.ui.search.selected_index, 9);
}

#[test]
fn test_plain_d_still_triggers_download() {
    let mut s = session();
    s.ui.focus = Focus::SearchResults;
    s.ui.search.search_results = songs(5);
    s.ui.search.selected_index = 2;
    press(&mut s, key('d'));
    assert!(s.ui.download.show_download_popup);
}

#[test]
fn test_ctrl_u_at_top_does_not_underflow() {
    let mut s = session();
    s.ui.focus = Focus::SearchResults;
    s.ui.search.search_results = songs(30);
    s.ui.search.selected_index = 2;
    press(&mut s, ctrl('u'));
    assert_eq!(s.ui.search.selected_index, 0);
}

#[test]
fn test_shift_tab_reverse_cycles_from_search_input() {
    let mut s = session();
    s.ui.focus = Focus::SearchInput;
    press(&mut s, code(KeyCode::BackTab));
    assert_eq!(s.ui.focus, Focus::QueueList);
}

#[test]
fn test_shift_tab_reverse_cycles_from_search_results() {
    let mut s = session();
    s.ui.focus = Focus::SearchResults;
    press(&mut s, code(KeyCode::BackTab));
    assert_eq!(s.ui.focus, Focus::SearchInput);
}

#[test]
fn test_shift_tab_reverse_cycles_from_queue() {
    let mut s = session();
    s.ui.focus = Focus::QueueList;
    press(&mut s, code(KeyCode::BackTab));
    assert_eq!(s.ui.focus, Focus::SearchResults);
}

#[test]
fn test_tab_still_cycles_forward() {
    let mut s = session();
    s.ui.focus = Focus::SearchInput;
    press(&mut s, code(KeyCode::Tab));
    assert_eq!(s.ui.focus, Focus::SearchResults);
}

#[test]
fn test_h_toggles_help_on_from_search() {
    let mut s = session();
    s.ui.focus = Focus::SearchResults;
    press(&mut s, key('h'));
    assert_eq!(s.ui.active_screen, ActiveScreen::Help);
}

#[test]
fn test_h_in_search_input_types_char() {
    let mut s = session();
    s.ui.focus = Focus::SearchInput;
    press(&mut s, key('h'));
    assert_eq!(s.ui.search.search_query, "h");
}

#[test]
fn test_player_q_returns_to_search() {
    let mut s = session();
    s.ui.active_screen = ActiveScreen::Player;
    let o = press(&mut s, key('q'));
    assert!(!o.exit);
    assert_eq!(s.ui.active_screen, ActiveScreen::Search);
    assert_eq!(s.ui.focus, Focus::SearchInput);
}

#[test]
fn test_help_q_closes_help() {
    let mut s = session();
    s.ui.active_screen = ActiveScreen::Help;
    let o = press(&mut s, key('q'));
    assert!(!o.exit);
    assert_eq!(s.ui.active_screen, ActiveScreen::Search);
}

#[test]
fn test_help_esc_closes_help() {
    let mut s = session();
    s.ui.active_screen = ActiveScreen::Help;
    press(&mut s, code(KeyCode::Esc));
    assert_eq!(s.ui.active_screen, ActiveScreen::Search);
}

#[test]
fn test_help_question_ignored() {
    let mut s = session();
    s.ui.active_screen = ActiveScreen::Help;
    press(&mut s, key('?'));
    assert_eq!(s.ui.active_screen, ActiveScreen::Help);
}

#[test]
fn test_help_h_closes_help() {
    let mut s = session();
    s.ui.active_screen = ActiveScreen::Help;
    press(&mut s, key('h'));
    assert_eq!(s.ui.active_screen, ActiveScreen::Search);
}

#[test]
fn test_help_random_key_ignored() {
    let mut s = session();
    s.ui.active_screen = ActiveScreen::Help;
    press(&mut s, key('a'));
    assert_eq!(s.ui.active_screen, ActiveScreen::Help);
}

#[test]
fn test_single_click_selects_search_result() {
    let mut s = session();
    s.ui.search.search_results = songs(5);
    s.panel_rects.search_results = list_rect();
    click(&mut s, 10, 5, 1_000);
    assert_eq!(s.ui.focus, Focus::SearchResults);
    assert_eq!(s.ui.search.selected_index, 1);
    assert!(s.pending_play.is_none());
}

#[test]
fn test_double_click_search_result_plays() {
    let mut s = session();
    s.ui.search.search_results = songs(5);
    s.panel_rects.search_results = list_rect();
    click(&mut s, 10, 5, 1_000);
    assert!(s.pending_play.is_none(), "first click should NOT play");
    click(&mut s, 10, 5, 1_100);
    assert!(s.pending_play.is_some(), "double-click should trigger play");
}

#[test]
fn two_slow_clicks_are_not_a_double_click() {
    let mut s = session();
    s.ui.search.search_results = songs(5);
    s.panel_rects.search_results = list_rect();
    click(&mut s, 10, 5, 1_000);
    click(&mut s, 10, 5, 1_401);
    assert!(s.pending_play.is_none());
}

#[test]
fn test_double_click_queue_item_plays() {
    let mut s = session();
    for x in songs(5) {
        s.playlist.add(x);
    }
    s.ui.focus = Focus::SearchResults;
    s.panel_rects.queue = list_rect();
    click(&mut s, 10, 5, 1_000);
    assert!(s.pending_play.is_none());
    click(&mut s, 10, 5, 1_050);
    assert!(s.pending_play.is_some());
}

#[test]
fn test_double_click_on_search_input_does_not_play() {
    let mut s = session();
    s.panel_rects.search_input = Some(Rect { x: 0, y: 0, width: 100, height: 3 });
    click(&mut s, 10, 1, 1_000);
    assert_eq!(s.ui.focus, Focus::SearchInput);
    assert!(s.pending_play.is_none());
    click(&mut s, 10, 1, 1_050);
    assert!(s.pending_play.is_none());
}

#[test]
fn test_double_click_on_empty_list_does_not_panic() {
    let mut s = session();
    s.panel_rects.search_results = list_rect();
    click(&mut s, 10, 5, 1_000);
    click(&mut s, 10, 5, 1_050);
    assert!(s.pending_play.is_none());
}

#[test]
fn test_double_click_outside_panel_ignored() {
    let mut s = session();
    click(&mut s, 200, 200, 1_000);
    click(&mut s, 200, 200, 1_050);
    assert!(s.pending_play.is_none());
    assert_eq!(s.ui.focus, Focus::SearchInput);
}

#[test]
fn test_double_click_already_playing_skips() {
    let mut s = session();
    s.ui.search.search_results = songs(5);
    s.panel_rects.search_results = list_rect();
    s.ui.player.current_song = Some(song(1));
    click(&mut s, 10, 5, 1_000);
    assert!(s.pending_play.is_none());
    click(&mut s, 10, 5, 1_050);
    assert!(s.pending_play.is_none(), "double-click on already-playing song should NOT re-download");
}

#[test]
fn test_double_click_queue_already_playing_skips() {
    let mut s = session();
    for x in songs(5) {
        s.playlist.add(x);
    }
    s.ui.focus = Focus::SearchResults;
    s.panel_rects.queue = list_rect();
    let playing = s.playlist.playlist().songs()[1].clone();
    s.ui.player.current_song = Some(playing);
    click(&mut s, 10, 5, 1_000);
    assert!(s.pending_play.is_none());
    click(&mut s, 10, 5, 1_050);
    assert!(s.pending_play.is_none());
}

#[test]
fn test_double_click_different_song_plays_when_another_is_playing() {
    let mut s = session();
    s.ui.search.search_results = songs(5);
    s.panel_rects.search_results = list_rect();
    s.ui.player.current_song = Some(song(0));
    click(&mut s, 10, 6, 1_000);
    assert_eq!(s.ui.search.selected_index, 2);
    assert!(s.pending_play.is_none());
    click(&mut s, 10, 6, 1_050);
    assert!(s.pending_play.is_some());
}

#[test]
fn test_double_click_after_error_allows_replay() {
    let mut s = session();
    s.ui.search.search_results = songs(5);
    s.panel_rects.search_results = list_rect();
    s.ui.player.current_song = None;
    click(&mut s, 10, 5, 1_000);
    click(&mut s, 10, 5, 1_050);
    assert!(s.pending_play.is_some());
}

#[test]
fn adding_a_result_to_the_queue_asks_for_a_save() {
    let mut s = session();
    s.ui.focus = Focus::SearchResults;
    s.ui.search.search_results = songs(3);
    s.ui.search.selected_index = 1;
    let o = press(&mut s, key('a'));
    assert_eq!(s.playlist.len(), 1);
    assert!(matches!(o.effects.as_slice(), [Effect::SavePlaylist]));
    let o = press(&mut s, key('a'));
    assert_eq!(s.playlist.len(), 1, "a song is queued once");
    assert!(o.effects.is_empty(), "nothing changed, nothing to save");
    s.on_playlist_saved(s.playlist.playlist.version, Ok(()), 0);
    assert!(!s.playlist_save_needed());
}

#[test]
fn clearing_the_queue_removes_every_cached_song() {
    let mut s = session();
    for x in songs(3) {
        s.playlist.add(x);
    }
    s.ui.focus = Focus::QueueList;
    let o = press(&mut s, key('c'));
    assert_eq!(s.playlist.len(), 0);
    let removed: Vec<String> = o
        .effects
        .iter()
        .filter_map(|e| match e {
            Effect::RemoveCached(id) => Some(id.clone()),
            _ => None,
        })
        .collect();
    assert_eq!(removed, vec!["id-0", "id-1", "id-2"]);
    assert!(matches!(o.effects.last(), Some(Effect::SavePlaylist)));
}

#[test]
fn searching_twice_within_the_debounce_runs_one_search() {
    let mut s = session();
    s.ui.search.search_query = "lofi".into();
    let first = s.handle_key(code(KeyCode::Enter), ctx(10_000));
    assert!(matches!(first.effects.as_slice(), [Effect::Search(q, _)] if q == "lofi"));
    let second = s.handle_key(code(KeyCode::Enter), ctx(10_100));
    assert!(second.effects.is_empty());
}

#[test]
fn the_pending_play_is_taken_once_with_its_generation() {
    let mut s = session();
    s.queue_play(song(4));
    let req = s.take_pending_play().unwrap();
    assert_eq!(req.song.id, "id-4");
    assert_eq!(req.generation, s.play_generation);
    assert!(s.take_pending_play().is_none());
}

#[test]
fn s_stops_playback_on_the_search_list() {
    let mut s = session();
    s.ui.active_screen = ActiveScreen::Search;
    s.ui.focus = Focus::SearchResults;
    let o = s.handle_key(key('s'), KeyContext { now_ms: 1_000, player_state: PlayerState::Playing, mode: AudioMode::Audio });
    assert!(!o.exit);
    assert!(matches!(o.effects.as_slice(), [Effect::Stop]));
    assert_eq!(s.ui.active_screen, ActiveScreen::Search);
    assert_eq!(s.ui.focus, Focus::SearchResults);
}

#[test]
fn s_stops_playback_on_the_player_screen() {
    let mut s = session();
    s.ui.active_screen = ActiveScreen::Player;
    let o = s.handle_key(key('s'), KeyContext { now_ms: 1_000, player_state: PlayerState::Playing, mode: AudioMode::Audio });
    assert!(!o.exit);
    assert!(matches!(o.effects.as_slice(), [Effect::Stop]));
    assert_eq!(s.ui.active_screen, ActiveScreen::Player);
}
