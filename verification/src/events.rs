//! What background events, progress ticks, mouse input and the outcomes of
//! outside work do to the session.
use vstd::prelude::*;

use crate::domain::audio_mode::AudioMode;
use crate::domain::media::{Song, RepeatMode};
use crate::domain::player_state::PlayerState;
use crate::interface::notification::NotificationLevel;
use crate::interface::state::{ActiveScreen, Focus, UiState, UpgradeChoice, SearchState, PlayerViewState};
use crate::keys::{sat_sub, capped_add, with_focus, with_selected, with_queue_selected, next_song_post,
    start_upgrade_post, upgrade_dismissed, KeyResult};
use crate::session::{AppEvent, Effect, PlayCommand, Rect, Session, filled, notified_state, queued, with_loading};
use crate::text::{decimal, seq_starts_with};

verus! {

/// The session with the player's current song replaced.
pub open spec fn with_current_song(s: Session, song: Option<Song>) -> Session {
    Session { ui: UiState { player: PlayerViewState { current_song: song, ..s.ui.player }, ..s.ui }, ..s }
}

/// Playback failed: the loading message and the current song are cleared
/// and the error is shown.
pub open spec fn playback_failed_post(s: Session, t: Session, msg: Seq<char>, now_ms: u64) -> bool {
    let s1 = with_current_song(with_loading(s, None), None);
    notified_state(s1, t, filled(s.ui, "err_playback"@, msg), NotificationLevel::Error, now_ms)
}

/// Whether an event comes from a play request older than the current one.
pub open spec fn stale(s: Session, generation: u64) -> bool {
    generation != s.play_generation
}

/// Whether the song of an event is still the current one.
pub open spec fn is_current(s: Session, song: Song) -> bool {
    s.ui.player.current_song matches Some(c) && c.id@ == song.id@
}

/// What an event does. Events of superseded play requests (older
/// generation), of a song no longer current, or of the other playback mode
/// are dropped without effect.
pub open spec fn event_post(s: Session, t: Session, ev: AppEvent, mode: AudioMode, now_ms: u64, r: Option<PlayCommand>) -> bool {
    match ev {
        AppEvent::SearchResults(songs) => {
            let s1 = Session { ui: UiState {
                search: SearchState { search_results: songs, is_searching: false, selected_index: 0, ..s.ui.search },
                focus: Focus::SearchResults, ..s.ui }, ..s };
            &&& notified_state(s1, t, filled(s.ui, "notif_search_count"@, decimal(songs@.len())), NotificationLevel::Info, now_ms)
            &&& r is None
        },
        AppEvent::SearchError(err) => {
            let s1 = Session { ui: UiState { search: SearchState { is_searching: false, ..s.ui.search }, ..s.ui }, ..s };
            &&& notified_state(s1, t, filled(s.ui, "err_search"@, err@), NotificationLevel::Error, now_ms)
            &&& r is None
        },
        AppEvent::PlaybackFinished => t == s && r is None,
        AppEvent::PlaybackError { message, generation } => r is None && if stale(s, generation) || mode != AudioMode::Video {
            t == s
        } else {
            playback_failed_post(s, t, message@, now_ms)
        },
        AppEvent::PlaybackHealthError(err) => r is None && playback_failed_post(s, t, err@, now_ms),
        AppEvent::DownloadComplete { song_title } => {
            &&& notified_state(with_loading(s, None), t, filled(s.ui, "notif_downloaded"@, song_title@), NotificationLevel::Success, now_ms)
            &&& r is None
        },
        AppEvent::DownloadError(err) => {
            &&& notified_state(with_loading(s, None), t, filled(s.ui, "err_download_failed"@, err@), NotificationLevel::Error, now_ms)
            &&& r is None
        },
        AppEvent::AudioReady { song, data, generation } => t == s && if stale(s, generation) || !is_current(s, song) || mode != AudioMode::Audio {
            r is None
        } else {
            r == Some(PlayCommand::Bytes { data, song })
        },
        AppEvent::AudioDownloadError { message, generation } => r is None && if stale(s, generation) || mode != AudioMode::Audio {
            t == s
        } else {
            playback_failed_post(s, t, message@, now_ms)
        },
        AppEvent::VideoStreamReady { song, stream_url, generation } => t == s && if stale(s, generation) || !is_current(s, song) || mode != AudioMode::Video {
            r is None
        } else {
            r == Some(PlayCommand::Video { stream_url, song })
        },
        AppEvent::ShowConfirmExit => {
            &&& notified_state(Session { ui: UiState { show_exit_confirmation: true, ..s.ui }, ..s }, t,
                s.ui.spec_tr("confirm_exit"@), NotificationLevel::Warning, now_ms)
            &&& r is None
        },
        AppEvent::UpgradeAvailable(version, url) => {
            &&& t == Session { ui: UiState { pending_upgrade: Some((version, url)), show_upgrade_popup: true, ..s.ui }, ..s }
            &&& r is None
        },
        AppEvent::Notification(msg) => {
            let s1 = Session { ui: UiState { is_upgrading: false, ..s.ui }, ..s };
            &&& r is None
            &&& if seq_starts_with(msg@, "upgrade_complete"@) {
                notified_state(s1, t, s.ui.spec_tr("upgrade_complete"@), NotificationLevel::Success, now_ms)
            } else if seq_starts_with(msg@, "upgrade_failed"@) {
                notified_state(s1, t, s.ui.spec_tr("upgrade_failed"@), NotificationLevel::Error, now_ms)
            } else {
                notified_state(s1, t, msg@, NotificationLevel::Info, now_ms)
            }
        },
    }
}

impl Session {
    fn playback_failed(&mut self, msg: &str, now_ms: u64)
        ensures
            playback_failed_post(*old(self), *final(self), msg@, now_ms),
    {
        self.ui.player.loading_status = None;
        self.ui.player.current_song = None;
        self.notify_key_arg("err_playback", msg, NotificationLevel::Error, now_ms);
    }

    /// React to a background event (see `event_post`). A returned command
    /// is for the caller to play; it reports the outcome with `finish_play`.
    pub fn handle_event(&mut self, ev: AppEvent, mode: AudioMode, now_ms: u64) -> (r: Option<PlayCommand>)
        ensures
            event_post(*old(self), *final(self), ev, mode, now_ms, r),
    {
        match ev {
            AppEvent::SearchResults(songs) => {
                let count = songs.len();
                self.ui.search.search_results = songs;
                self.ui.search.is_searching = false;
                self.ui.search.selected_index = 0;
                self.ui.focus = Focus::SearchResults;
                let n = crate::text::u64_to_decimal(count as u64);
                self.notify_key_arg("notif_search_count", n.as_str(), NotificationLevel::Info, now_ms);
                None
            },
            AppEvent::SearchError(err) => {
                self.ui.search.is_searching = false;
                self.notify_key_arg("err_search", err.as_str(), NotificationLevel::Error, now_ms);
                None
            },
            AppEvent::PlaybackFinished => None,
            AppEvent::PlaybackError { message, generation } => {
                if generation != self.play_generation || mode != AudioMode::Video {
                    return None;
                }
                self.playback_failed(message.as_str(), now_ms);
                None
            },
            AppEvent::PlaybackHealthError(err) => {
                self.playback_failed(err.as_str(), now_ms);
                None
            },
            AppEvent::DownloadComplete { song_title } => {
                self.ui.player.loading_status = None;
                self.notify_key_arg("notif_downloaded", song_title.as_str(), NotificationLevel::Success, now_ms);
                None
            },
            AppEvent::DownloadError(err) => {
                self.ui.player.loading_status = None;
                self.notify_key_arg("err_download_failed", err.as_str(), NotificationLevel::Error, now_ms);
                None
            },
            AppEvent::AudioReady { song, data, generation } => {
                if generation != self.play_generation || !self.guard_already_playing(song.id.as_str())
                    || mode != AudioMode::Audio {
                    return None;
                }
                Some(PlayCommand::Bytes { data, song })
            },
            AppEvent::AudioDownloadError { message, generation } => {
                if generation != self.play_generation || mode != AudioMode::Audio {
                    return None;
                }
                self.playback_failed(message.as_str(), now_ms);
                None
            },
            AppEvent::VideoStreamReady { song, stream_url, generation } => {
                if generation != self.play_generation || !self.guard_already_playing(song.id.as_str())
                    || mode != AudioMode::Video {
                    return None;
                }
                Some(PlayCommand::Video { stream_url, song })
            },
            AppEvent::ShowConfirmExit => {
                self.ui.show_exit_confirmation = true;
                self.notify_key("confirm_exit", NotificationLevel::Warning, now_ms);
                None
            },
            AppEvent::UpgradeAvailable(version, url) => {
                self.ui.pending_upgrade = Some((version, url));
                self.ui.show_upgrade_popup = true;
                None
            },
            AppEvent::Notification(msg) => {
                self.ui.is_upgrading = false;
                proof {
                    reveal_strlit("upgrade_complete");
                    reveal_strlit("upgrade_failed");
                }
                if crate::text::starts_with(msg.as_str(), "upgrade_complete") {
                    self.notify_key("upgrade_complete", NotificationLevel::Success, now_ms);
                } else if crate::text::starts_with(msg.as_str(), "upgrade_failed") {
                    self.notify_key("upgrade_failed", NotificationLevel::Error, now_ms);
                } else {
                    self.notify(msg, NotificationLevel::Info, now_ms);
                }
                None
            },
        }
    }

    /// Record how a play command went: on success the song plays (audio is
    /// announced when `announce`); on failure the error is shown and the
    /// current song is cleared, so it can be played again. The loading
    /// message goes away either way.
    pub fn finish_play(&mut self, result: Result<(), String>, announce: bool, now_ms: u64)
        ensures
            result is Ok && announce ==> notified_state(with_loading(*old(self), None), *final(self),
                old(self).ui.spec_tr("notif_playing"@), NotificationLevel::Info, now_ms),
            result is Ok && !announce ==> *final(self) == with_loading(*old(self), None),
            result matches Err(e) ==> playback_failed_post(*old(self), *final(self), e@, now_ms),
    {
        match result {
            Ok(()) => {
                self.ui.player.loading_status = None;
                if announce {
                    self.notify_key("notif_playing", NotificationLevel::Info, now_ms);
                }
            },
            Err(e) => {
                self.playback_failed(e.as_str(), now_ms);
            },
        }
    }

    /// Record the outcome of a mode switch: a failure is shown; a success is
    /// announced with the new mode's name when `report`.
    pub fn on_mode_toggled(&mut self, result: Result<AudioMode, String>, report: bool, now_ms: u64)
        ensures
            result matches Err(e) ==> notified_state(*old(self), *final(self),
                filled(old(self).ui, "err_playback"@, e@), NotificationLevel::Error, now_ms),
            result matches Ok(m) ==> if report {
                notified_state(*old(self), *final(self), filled(old(self).ui, "notif_mode"@,
                    old(self).ui.spec_tr(if m == AudioMode::Audio { "status_audio"@ } else { "status_video"@ })),
                    NotificationLevel::Info, now_ms)
            } else {
                *final(self) == *old(self)
            },
    {
        match result {
            Err(e) => {
                self.notify_key_arg("err_playback", e.as_str(), NotificationLevel::Error, now_ms);
            },
            Ok(m) => {
                if report {
                    let label = match m {
                        AudioMode::Audio => self.ui.tr("status_audio"),
                        AudioMode::Video => self.ui.tr("status_video"),
                    };
                    self.notify_key_arg("notif_mode", label.as_str(), NotificationLevel::Info, now_ms);
                }
            },
        }
    }

    /// Record the folder chosen in the dialog; without one the user is told
    /// to type the path.
    pub fn on_folder_picked(&mut self, folder: Option<String>, now_ms: u64)
        ensures
            folder matches Some(p) ==> *final(self) == (Session { ui: UiState { config:
                crate::interface::state::ConfigState { download_path: p, ..old(self).ui.config }, ..old(self).ui }, ..*old(self) }),
            folder is None ==> notified_state(*old(self), *final(self),
                old(self).ui.spec_tr("notif_manual_path"@), NotificationLevel::Info, now_ms),
    {
        match folder {
            Some(p) => {
                self.ui.config.download_path = p;
            },
            None => {
                self.notify_key("notif_manual_path", NotificationLevel::Info, now_ms);
            },
        }
    }

    /// Announce the volume, in percent.
    pub fn on_volume_changed(&mut self, percent: u64, now_ms: u64)
        ensures
            notified_state(*old(self), *final(self), crate::text::replace_all(
                old(self).ui.spec_tr("notif_volume"@), "{:.0}"@, decimal(percent as nat)), NotificationLevel::Info, now_ms),
    {
        let t = self.ui.tr("notif_volume");
        let p = crate::text::u64_to_decimal(percent);
        proof {
            reveal_strlit("{:.0}");
        }
        let msg = crate::text::replace(t.as_str(), "{:.0}", p.as_str());
        self.notify(msg, NotificationLevel::Info, now_ms);
    }

    /// Announce a successful pause.
    pub fn on_paused(&mut self, ok: bool, now_ms: u64)
        ensures
            ok ==> notified_state(*old(self), *final(self), old(self).ui.spec_tr("notif_paused"@), NotificationLevel::Info, now_ms),
            !ok ==> *final(self) == *old(self),
    {
        if ok {
            self.notify_key("notif_paused", NotificationLevel::Info, now_ms);
        }
    }

    /// Announce a successful resume.
    pub fn on_resumed(&mut self, ok: bool, now_ms: u64)
        ensures
            ok ==> notified_state(*old(self), *final(self), old(self).ui.spec_tr("notif_resumed"@), NotificationLevel::Info, now_ms),
            !ok ==> *final(self) == *old(self),
    {
        if ok {
            self.notify_key("notif_resumed", NotificationLevel::Info, now_ms);
        }
    }
}

/// Law: an event of a superseded play request (older generation) never
/// changes the session and never starts playback.
pub proof fn lemma_stale_events_are_dropped(s: Session, t: Session, ev: AppEvent, mode: AudioMode, now_ms: u64, r: Option<PlayCommand>)
    requires
        event_post(s, t, ev, mode, now_ms, r),
        match ev {
            AppEvent::AudioReady { generation, .. } => stale(s, generation),
            AppEvent::VideoStreamReady { generation, .. } => stale(s, generation),
            AppEvent::AudioDownloadError { generation, .. } => stale(s, generation),
            AppEvent::PlaybackError { generation, .. } => stale(s, generation),
            _ => false,
        },
    ensures
        t == s,
        r is None,
{
}

/// Law: a new play request makes every earlier request stale, so the events
/// of the earlier request are dropped afterwards.
pub proof fn lemma_queue_play_supersedes(s: Session, song: Song)
    requires
        s.play_generation < u64::MAX,
    ensures
        stale(queued(s, song), s.play_generation),
        !stale(queued(s, song), queued(s, song).play_generation),
{
}

} // verus!

verus! {

/// The kinds of mouse input the interface reacts to.
#[derive(Clone, Copy, Debug, PartialEq, Eq, Structural)]
pub enum MouseKind {
    LeftDown,
    ScrollUp,
    ScrollDown,
    Other,
}

/// A mouse event at a terminal cell.
#[derive(Clone, Copy, Debug, PartialEq, Eq, Structural)]
pub struct MouseInput {
    pub kind: MouseKind,
    pub column: u16,
    pub row: u16,
}

/// Two clicks count as one double click within this many milliseconds.
pub open spec fn double_click_ms() -> u64 {
    400
}

/// Whether a click at (col, row) at `now_ms` completes a double click with
/// the previous click: same cell, at most 400 ms later.
pub open spec fn spec_is_double(last: Option<(u64, u16, u16)>, col: u16, row: u16, now_ms: u64) -> bool {
    last matches Some((time, c, r)) && crate::keys::sat_sub64(now_ms, time) <= 400 && c == col && r == row
}

/// The list row under the click: the rows of a bordered list start one
/// cell below its top edge and scroll so that the selection stays visible;
/// a click outside the rows keeps the selection.
pub open spec fn spec_resolve_idx(rect: Rect, row: u16, selected: usize, count: usize) -> usize {
    let visible = sat_sub(rect.height as usize, 2);
    if visible > 0 && row > rect.y && ((row - rect.y - 1) as usize) < visible {
        (list_offset(selected, count, visible) + (row - rect.y - 1)) as usize
    } else {
        selected
    }
}

/// The first row shown of a list of `count` rows in a window of `visible`
/// rows: the selection scrolls to the top until the last page is reached.
pub open spec fn list_offset(selected: usize, count: usize, visible: usize) -> usize {
    if count > visible {
        if selected <= count - visible { selected } else { (count - visible) as usize }
    } else {
        0
    }
}

/// The first row shown of a list (see `list_offset`).
pub fn scroll_offset(selected: usize, count: usize, visible: usize) -> (r: usize)
    ensures
        r == list_offset(selected, count, visible),
        r + visible <= count || r == 0,
{
    if count > visible {
        if selected <= count - visible { selected } else { count - visible }
    } else {
        0
    }
}

/// The row of a list that a click selects (see `spec_resolve_idx`).
pub fn resolve_idx(rect: Rect, row: u16, selected: usize, count: usize) -> (r: usize)
    ensures
        r == spec_resolve_idx(rect, row, selected, count),
{
    let visible: usize = if rect.height >= 2 { (rect.height - 2) as usize } else { 0 };
    if visible > 0 && row > rect.y {
        let rel = (row - rect.y - 1) as usize;
        if rel < visible {
            let offset = scroll_offset(selected, count, visible);
            return offset + rel;
        }
    }
    selected
}

/// What a click does: inside the upgrade popup it may press a button (the
/// button row is three cells below the popup's top; the left half is Yes),
/// and it is consumed either way; otherwise it focuses the clicked panel,
/// selects the clicked row, and a double click plays that row.
pub open spec fn click_post(s: Session, t: Session, col: u16, row: u16, double: bool, now_ms: u64, effects: Seq<Effect>) -> bool {
    let rects = s.panel_rects;
    if s.ui.show_upgrade_popup && (rects.upgrade_popup matches Some(pr) && pr.spec_contains(col, row)) {
        let pr = rects.upgrade_popup->Some_0;
        if row == pr.y + 3 {
            if col < pr.x + pr.width / 2 {
                start_upgrade_post(Session { ui: UiState { upgrade_selection: UpgradeChoice::Yes, ..s.ui }, ..s }, t, effects, now_ms)
            } else {
                t == upgrade_dismissed(Session { ui: UiState { upgrade_selection: UpgradeChoice::No, ..s.ui }, ..s }) && effects.len() == 0
            }
        } else {
            t == s && effects.len() == 0
        }
    } else if rects.search_input matches Some(r) && r.spec_contains(col, row) {
        t == Session { ui: UiState { active_screen: ActiveScreen::Search, focus: Focus::SearchInput, ..s.ui }, ..s } && effects.len() == 0
    } else if rects.search_results matches Some(r) && r.spec_contains(col, row) {
        let r = rects.search_results->Some_0;
        let idx = spec_resolve_idx(r, row, s.ui.search.selected_index, s.ui.search.search_results@.len() as usize);
        let s1 = Session { ui: UiState { active_screen: ActiveScreen::Search, focus: Focus::SearchResults, ..s.ui }, ..s };
        let s2 = if idx < s.ui.search.search_results@.len() { with_selected(s1, idx) } else { s1 };
        effects.len() == 0 && if double { crate::session::play_selected_post(s2, t, now_ms) } else { t == s2 }
    } else if rects.queue matches Some(r) && r.spec_contains(col, row) {
        let r = rects.queue->Some_0;
        let idx = spec_resolve_idx(r, row, s.ui.queue.queue_selected, s.playlist.playlist.songs@.len() as usize);
        let s1 = Session { ui: UiState { active_screen: ActiveScreen::Search, focus: Focus::QueueList, ..s.ui }, ..s };
        let s2 = if idx < s.playlist.playlist.songs@.len() { with_queue_selected(s1, idx) } else { s1 };
        effects.len() == 0 && if double { crate::session::play_from_queue_post(s2, t, now_ms) } else { t == s2 }
    } else {
        t == s && effects.len() == 0
    }
}

/// The wheel moves the selection of the focused list by one; over the
/// search box it moves the focus to the results.
pub open spec fn scroll_result(s: Session, down: bool) -> Session {
    let f = s.ui.focus;
    let ql = s.playlist.playlist.songs@.len() as usize;
    if f == Focus::SearchInput {
        with_focus(s, Focus::SearchResults)
    } else if f == Focus::SearchResults {
        let sel = s.ui.search.selected_index;
        with_selected(s, if down { capped_add(sel, 1, sat_sub(s.ui.search.search_results@.len() as usize, 1)) } else { sat_sub(sel, 1) })
    } else if down {
        if ql > 0 { with_queue_selected(s, capped_add(s.ui.queue.queue_selected, 1, sat_sub(ql, 1))) } else { s }
    } else {
        with_queue_selected(s, sat_sub(s.ui.queue.queue_selected, 1))
    }
}

/// What mouse input does (see `click_post` and `scroll_result`); every
/// left click is remembered to recognise double clicks.
pub open spec fn mouse_post(s: Session, t: Session, m: MouseInput, now_ms: u64, effects: Seq<Effect>) -> bool {
    match m.kind {
        MouseKind::LeftDown => click_post(
            Session { last_click: Some((now_ms, m.column, m.row)), ..s }, t, m.column, m.row,
            spec_is_double(s.last_click, m.column, m.row, now_ms), now_ms, effects),
        MouseKind::ScrollUp => t == scroll_result(s, false) && effects.len() == 0,
        MouseKind::ScrollDown => t == scroll_result(s, true) && effects.len() == 0,
        MouseKind::Other => t == s && effects.len() == 0,
    }
}

impl Session {
    /// Whether this click completes a double click; remembers the click.
    pub fn is_double_click(&mut self, col: u16, row: u16, now_ms: u64) -> (b: bool)
        ensures
            b == spec_is_double(old(self).last_click, col, row, now_ms),
            *final(self) == (Session { last_click: Some((now_ms, col, row)), ..*old(self) }),
    {
        let is_double = match self.last_click {
            Some((time, c, r)) => (if now_ms >= time { now_ms - time } else { 0 }) <= 400 && c == col && r == row,
            None => false,
        };
        self.last_click = Some((now_ms, col, row));
        is_double
    }

    pub fn handle_scroll_up(&mut self)
        ensures
            *final(self) == scroll_result(*old(self), false),
    {
        match self.ui.focus {
            Focus::SearchResults => {
                let s = self.ui.search.selected_index;
                self.ui.search.selected_index = if s >= 1 { s - 1 } else { 0 };
            },
            Focus::QueueList => {
                let q = self.ui.queue.queue_selected;
                self.ui.queue.queue_selected = if q >= 1 { q - 1 } else { 0 };
            },
            Focus::SearchInput => {
                self.ui.focus = Focus::SearchResults;
            },
        }
    }

    pub fn handle_scroll_down(&mut self)
        ensures
            *final(self) == scroll_result(*old(self), true),
    {
        match self.ui.focus {
            Focus::SearchResults => {
                let n = self.ui.search.search_results.len();
                let max = if n >= 1 { n - 1 } else { 0 };
                let s = self.ui.search.selected_index;
                self.ui.search.selected_index = if s < max { s + 1 } else { max };
            },
            Focus::QueueList => {
                let n = self.playlist.len();
                if n > 0 {
                    let q = self.ui.queue.queue_selected;
                    self.ui.queue.queue_selected = if q < n - 1 { q + 1 } else { n - 1 };
                }
            },
            Focus::SearchInput => {
                self.ui.focus = Focus::SearchResults;
            },
        }
    }

    fn handle_click(&mut self, col: u16, row: u16, double: bool, now_ms: u64) -> (effects: Vec<Effect>)
        ensures
            click_post(*old(self), *final(self), col, row, double, now_ms, effects@),
    {
        if self.ui.show_upgrade_popup {
            if let Some(pr) = self.panel_rects.upgrade_popup {
                if pr.contains(col, row) {
                    if (row as u32) == (pr.y as u32) + 3 {
                        let mid: u32 = (pr.x as u32) + (pr.width as u32) / 2;
                        if (col as u32) < mid {
                            self.ui.upgrade_selection = UpgradeChoice::Yes;
                            return self.start_upgrade(now_ms);
                        } else {
                            self.ui.upgrade_selection = UpgradeChoice::No;
                            self.ui.show_upgrade_popup = false;
                            self.ui.pending_upgrade = None;
                            return Vec::new();
                        }
                    }
                    return Vec::new();
                }
            }
        }
        let on_input = match self.panel_rects.search_input { Some(r) => r.contains(col, row), None => false };
        let on_results = match self.panel_rects.search_results { Some(r) => r.contains(col, row), None => false };
        let on_queue = match self.panel_rects.queue { Some(r) => r.contains(col, row), None => false };
        if on_input {
            self.ui.active_screen = ActiveScreen::Search;
            self.ui.focus = Focus::SearchInput;
        } else if on_results {
            let r = self.panel_rects.search_results.unwrap();
            let idx = resolve_idx(r, row, self.ui.search.selected_index, self.ui.search.search_results.len());
            self.ui.active_screen = ActiveScreen::Search;
            self.ui.focus = Focus::SearchResults;
            if idx < self.ui.search.search_results.len() {
                self.ui.search.selected_index = idx;
            }
            if double {
                self.schedule_play_selected(now_ms);
            }
        } else if on_queue {
            let r = self.panel_rects.queue.unwrap();
            let idx = resolve_idx(r, row, self.ui.queue.queue_selected, self.playlist.len());
            self.ui.active_screen = ActiveScreen::Search;
            self.ui.focus = Focus::QueueList;
            if idx < self.playlist.len() {
                self.ui.queue.queue_selected = idx;
            }
            if double {
                self.play_selected_from_queue(now_ms);
            }
        }
        Vec::new()
    }

    /// React to mouse input (see `mouse_post`).
    pub fn handle_mouse(&mut self, m: MouseInput, now_ms: u64) -> (effects: Vec<Effect>)
        ensures
            mouse_post(*old(self), *final(self), m, now_ms, effects@),
    {
        match m.kind {
            MouseKind::LeftDown => {
                let double = self.is_double_click(m.column, m.row, now_ms);
                self.handle_click(m.column, m.row, double, now_ms)
            },
            MouseKind::ScrollUp => {
                self.handle_scroll_up();
                Vec::new()
            },
            MouseKind::ScrollDown => {
                self.handle_scroll_down();
                Vec::new()
            },
            MouseKind::Other => Vec::new(),
        }
    }
}

} // verus!

verus! {

/// What a progress tick does. With no current song nothing happens. A
/// failed health check of the player is a playback failure. When the player
/// is playing and its sink has run dry, the player is stopped and the next
/// song is chosen: the same song again under repeat-one, else the queue's
/// next song, else nothing (the current song is cleared).
pub open spec fn progress_post(s: Session, t: Session, health: Result<(), String>, state: PlayerState,
    sink_empty: bool, now_ms: u64, effects: Seq<Effect>) -> bool
{
    let p = s.playlist.playlist;
    if s.ui.player.current_song is None {
        t == s && effects.len() == 0
    } else if health is Err {
        playback_failed_post(s, t, health->Err_0@, now_ms) && effects.len() == 0
    } else if state == PlayerState::Playing && sink_empty {
        &&& effects == seq![Effect::Stop]
        &&& if p.repeat_mode == RepeatMode::One && p.spec_current() is Some {
            t == queued(s, p.spec_current()->0)
        } else {
            let i = crate::domain::media::next_index(p.songs@.len() as int, p.current_index, p.repeat_mode);
            if crate::domain::media::next_moves(p.songs@.len() as int, p.current_index, p.repeat_mode) {
                t == queued(crate::keys::at_index(s, i), p.songs@[i as int])
            } else {
                t == with_current_song(crate::keys::at_index(s, i), None)
            }
        }
    } else {
        t == s && effects.len() == 0
    }
}

impl Session {
    /// Whether progress ticks have anything to do: a song is current.
    pub fn needs_progress_poll(&self) -> (b: bool)
        ensures
            b == (self.ui.player.current_song is Some),
    {
        self.ui.player.current_song.is_some()
    }

    /// A progress tick (see `progress_post`), given the outcome of the
    /// player's health check, its state and whether its sink is empty. The
    /// returned effects are for the caller to perform.
    pub fn on_progress(&mut self, health: Result<(), String>, state: PlayerState, sink_empty: bool, now_ms: u64)
        -> (effects: Vec<Effect>)
        ensures
            progress_post(*old(self), *final(self), health, state, sink_empty, now_ms, effects@),
    {
        let mut effects: Vec<Effect> = Vec::new();
        if self.ui.player.current_song.is_none() {
            return effects;
        }
        match health {
            Err(e) => {
                self.playback_failed(e.as_str(), now_ms);
                return effects;
            },
            Ok(()) => {},
        }
        if state == PlayerState::Playing && sink_empty {
            effects.push(Effect::Stop);
            if self.playlist.repeat_mode() == RepeatMode::One && self.playlist.has_current_song() {
                self.ui.player.current_song = None;
                match self.playlist.current_song_cloned() {
                    Some(song) => self.queue_play(song),
                    None => {},
                }
            } else {
                match self.playlist.next() {
                    Some(song) => self.queue_play(song),
                    None => {
                        self.ui.player.current_song = None;
                    },
                }
            }
            assert(effects@ =~= seq![Effect::Stop]);
        }
        effects
    }
}

} // verus!
