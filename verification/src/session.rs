//! The interface's state machine: what a key, a click, a background event or
//! a progress tick does to the interface state, and which outside work
//! (playback, downloads, saving, the file dialog) it asks the caller to do.
use vstd::prelude::*;

use crate::application::playlist::PlaylistUseCase;
use crate::domain::audio_mode::AudioMode;
use crate::domain::media::{Song, RepeatMode, bump};
use crate::domain::player_state::PlayerState;
use crate::interface::notification::{Notification, NotificationLevel, pushed, lifetime_ms};
use crate::interface::state::{ActiveScreen, Focus, UiState, UpgradeChoice};
use crate::text::replace_all;

verus! {

/// A screen rectangle in terminal cells.
#[derive(Clone, Copy, Debug, PartialEq, Eq, Structural)]
pub struct Rect {
    pub x: u16,
    pub y: u16,
    pub width: u16,
    pub height: u16,
}

impl Rect {
    /// Whether the cell (col, row) lies inside the rectangle.
    pub open spec fn spec_contains(&self, col: u16, row: u16) -> bool {
        self.y <= row < self.y + self.height && self.x <= col < self.x + self.width
    }

    pub fn contains(&self, col: u16, row: u16) -> (b: bool)
        ensures
            b == self.spec_contains(col, row),
    {
        row >= self.y && (row as u32) < (self.y as u32) + (self.height as u32)
            && col >= self.x && (col as u32) < (self.x as u32) + (self.width as u32)
    }
}

/// Where the clickable panels were drawn last.
#[derive(Clone, Copy, Debug)]
pub struct PanelRects {
    pub search_input: Option<Rect>,
    pub search_results: Option<Rect>,
    pub queue: Option<Rect>,
    pub upgrade_popup: Option<Rect>,
}

impl PanelRects {
    pub fn new() -> (p: PanelRects)
        ensures
            p.search_input is None,
            p.search_results is None,
            p.queue is None,
            p.upgrade_popup is None,
    {
        PanelRects { search_input: None, search_results: None, queue: None, upgrade_popup: None }
    }
}

/// A key as the interface reads it.
#[derive(Clone, Copy, Debug, PartialEq, Eq, Structural)]
pub enum KeyCode {
    Char(char),
    Esc,
    Enter,
    Tab,
    BackTab,
    Up,
    Down,
    Left,
    Right,
    Backspace,
    Delete,
    Other,
}

/// A key press, with whether Control was held.
#[derive(Clone, Copy, Debug, PartialEq, Eq, Structural)]
pub struct Key {
    pub code: KeyCode,
    pub ctrl: bool,
}

/// What the caller knows when a key arrives: the time, and the state and
/// mode of playback.
#[derive(Clone, Copy, Debug)]
pub struct KeyContext {
    pub now_ms: u64,
    pub player_state: PlayerState,
    pub mode: AudioMode,
}

/// A volume step of five percent.
#[derive(Clone, Copy, Debug, PartialEq, Eq, Structural)]
pub enum VolumeStep {
    Up,
    Down,
}

/// Outside work a transition asks for, to be done in order.
#[derive(Debug)]
pub enum Effect {
    /// Deliver `AppEvent::ShowConfirmExit` back to the interface.
    ConfirmExit,
    /// Download and install the given release (version tag, URL); report
    /// the outcome with `AppEvent::Notification`.
    StartUpgrade(String, String),
    /// Switch between audio and video playback, then call
    /// `Session::on_mode_toggled` (`report`: also announce success).
    ToggleMode { report: bool },
    /// Open the folder dialog, then call `Session::on_folder_picked`.
    PickFolder,
    /// Move the volume by one step, clamped to [0, 1]; when `report`, call
    /// `Session::on_volume_changed` with the new volume in percent.
    Volume { step: VolumeStep, report: bool },
    /// Pause playback, then call `Session::on_paused`.
    Pause,
    /// Resume playback, then call `Session::on_resumed`.
    Resume,
    /// Run a search (query, number of results) and deliver its outcome as
    /// `AppEvent::SearchResults` or `AppEvent::SearchError`.
    Search(String, usize),
    /// Delete the cached audio of a song id.
    RemoveCached(String),
    /// Save the queue, then call `Session::on_playlist_saved`.
    SavePlaylist,
    /// Stop playback.
    Stop,
}

/// The result of a key: whether the application exits, and the work it
/// asks for.
#[derive(Debug)]
pub struct KeyOutcome {
    pub exit: bool,
    pub effects: Vec<Effect>,
}

/// Messages from background work.
#[derive(Debug)]
pub enum AppEvent {
    SearchResults(Vec<Song>),
    SearchError(String),
    PlaybackFinished,
    PlaybackError { message: String, generation: u64 },
    PlaybackHealthError(String),
    DownloadComplete { song_title: String },
    DownloadError(String),
    AudioReady { song: Song, data: Vec<u8>, generation: u64 },
    AudioDownloadError { message: String, generation: u64 },
    VideoStreamReady { song: Song, stream_url: String, generation: u64 },
    ShowConfirmExit,
    UpgradeAvailable(String, String),
    Notification(String),
}

/// Playback an event asks for; the caller reports the outcome with
/// `Session::finish_play`.
#[derive(Debug)]
pub enum PlayCommand {
    /// Play downloaded audio bytes.
    Bytes { data: Vec<u8>, song: Song },
    /// Play a resolved video stream.
    Video { stream_url: String, song: Song },
}

/// A song whose audio (or stream) must now be fetched, tagged with the play
/// generation that its background events must carry.
#[derive(Debug)]
pub struct PlayRequest {
    pub song: Song,
    pub generation: u64,
}

/// `g + 1`, wrapping to zero past `u64::MAX`.
pub open spec fn bump64(g: u64) -> u64 {
    if g == u64::MAX { 0 } else { (g + 1) as u64 }
}

/// The interface state together with the queue and the bookkeeping of
/// playback requests.
#[derive(Debug)]
pub struct Session {
    pub ui: UiState,
    pub playlist: PlaylistUseCase,
    /// The song to fetch at the next turn of the main loop.
    pub pending_play: Option<Song>,
    /// Counter of play requests; events of older requests are stale.
    pub play_generation: u64,
    /// When the last search was started.
    pub last_search_ms: Option<u64>,
    /// Time and cell of the last left click.
    pub last_click: Option<(u64, u16, u16)>,
    /// Queue version last saved to disk.
    pub last_saved_playlist_version: usize,
    pub panel_rects: PanelRects,
}

/// `after` is `before` with one more notification, of the given text and
/// level, created at `now_ms`.
pub open spec fn notified(before: Seq<Notification>, after: Seq<Notification>, msg: Seq<char>, level: NotificationLevel, now_ms: u64) -> bool {
    &&& after == pushed(before, after.last())
    &&& after.last().message@ == msg
    &&& after.last().level == level
    &&& after.last().timestamp_ms == now_ms
    &&& after.last().duration_ms == lifetime_ms(level)
}

/// The session `s` with only its notifications replaced by those of `t`.
pub open spec fn with_notifications(s: Session, t: Session) -> Session {
    Session { ui: UiState { notifications: t.ui.notifications, ..s.ui }, ..s }
}

/// `t` is `s` plus one notification with the given text and level.
pub open spec fn notified_state(s: Session, t: Session, msg: Seq<char>, level: NotificationLevel, now_ms: u64) -> bool {
    &&& t == with_notifications(s, t)
    &&& notified(s.ui.notifications@, t.ui.notifications@, msg, level, now_ms)
}

/// A translated text with its `{}` placeholders filled by `arg`.
pub open spec fn filled(ui: UiState, key: Seq<char>, arg: Seq<char>) -> Seq<char> {
    replace_all(ui.spec_tr(key), "{}"@, arg)
}

/// The session after `song` is queued to play: a new play generation, the
/// song shown as current and fetched at the next turn.
pub open spec fn queued(s: Session, song: Song) -> Session {
    Session {
        play_generation: bump64(s.play_generation),
        pending_play: Some(song),
        ui: UiState { player: crate::interface::state::PlayerViewState { current_song: Some(song), ..s.ui.player }, ..s.ui },
        ..s
    }
}

/// The session after the queue's fields are replaced by those of `t`.
pub open spec fn with_playlist(s: Session, t: Session) -> Session {
    Session { playlist: t.playlist, ..s }
}

impl Session {
    /// A session over the given interface state and queue; the queue counts
    /// as saved.
    pub fn new(ui: UiState, playlist: PlaylistUseCase) -> (s: Session)
        ensures
            s.ui == ui,
            s.playlist == playlist,
            s.pending_play is None,
            s.play_generation == 0,
            s.last_search_ms is None,
            s.last_click is None,
            s.last_saved_playlist_version == playlist.playlist.version,
            s.panel_rects.search_input is None,
            s.panel_rects.search_results is None,
            s.panel_rects.queue is None,
            s.panel_rects.upgrade_popup is None,
    {
        let v = playlist.playlist.version;
        Session {
            ui,
            playlist,
            pending_play: None,
            play_generation: 0,
            last_search_ms: None,
            last_click: None,
            last_saved_playlist_version: v,
            panel_rects: PanelRects::new(),
        }
    }

    /// Show a message created at `now_ms`.
    pub(crate) fn notify(&mut self, msg: String, level: NotificationLevel, now_ms: u64)
        ensures
            notified_state(*old(self), *final(self), msg@, level, now_ms),
    {
        let ghost m = msg;
        self.ui.push_notification_at(msg, level, now_ms);
        proof {
            crate::interface::notification::lemma_pushed_last(old(self).ui.notifications@,
                Notification { message: m, level, timestamp_ms: now_ms, duration_ms: lifetime_ms(level) });
        }
    }

    /// Show the translated text of `key`.
    pub(crate) fn notify_key(&mut self, key: &str, level: NotificationLevel, now_ms: u64)
        ensures
            notified_state(*old(self), *final(self), old(self).ui.spec_tr(key@), level, now_ms),
    {
        let msg = self.ui.tr(key);
        self.notify(msg, level, now_ms);
    }

    /// Show the translated text of `key` with `{}` filled by `arg`.
    pub(crate) fn notify_key_arg(&mut self, key: &str, arg: &str, level: NotificationLevel, now_ms: u64)
        ensures
            notified_state(*old(self), *final(self), filled(old(self).ui, key@, arg@), level, now_ms),
    {
        let t = self.ui.tr(key);
        proof {
            reveal_strlit("{}");
        }
        let msg = crate::text::replace(t.as_str(), "{}", arg);
        self.notify(msg, level, now_ms);
    }

    /// Queue `song` to play: bump the play generation, show it as current
    /// and fetch it at the next turn.
    pub fn queue_play(&mut self, song: Song)
        ensures
            *final(self) == queued(*old(self), song),
    {
        self.play_generation = if self.play_generation == u64::MAX { 0 } else { self.play_generation + 1 };
        self.ui.player.current_song = Some(song.clone());
        self.pending_play = Some(song);
    }

    pub open spec fn spec_already_playing(&self, id: Seq<char>) -> bool {
        self.ui.player.current_song matches Some(c) && c.id@ == id
    }

    /// Whether the song with this id is already the current one (playing,
    /// paused or loading); a song is played again only after it was cleared.
    pub fn guard_already_playing(&self, song_id: &str) -> (b: bool)
        ensures
            b == self.spec_already_playing(song_id@),
    {
        match &self.ui.player.current_song {
            Some(c) => crate::text::str_eq(c.id.as_str(), song_id),
            None => false,
        }
    }
}

} // verus!

verus! {

/// The session with the queue's current position set to `index`.
pub open spec fn with_current_index(s: Session, index: usize) -> Session {
    Session {
        playlist: PlaylistUseCase {
            playlist: crate::domain::media::Playlist { current_index: index, ..s.playlist.playlist },
        },
        ..s
    }
}

/// The session with the queue's songs replaced by `songs` (the old ones
/// and one more), the last of them current.
pub open spec fn appended_current(s: Session, songs: Vec<Song>) -> Session {
    Session {
        playlist: PlaylistUseCase {
            playlist: crate::domain::media::Playlist {
                songs,
                current_index: s.playlist.playlist.songs@.len() as usize,
                version: bump(s.playlist.playlist.version),
                ..s.playlist.playlist
            },
        },
        ..s
    }
}

/// `pos` is the first position of a song with id `id`.
pub open spec fn first_with_id(songs: Seq<Song>, id: Seq<char>, pos: int) -> bool {
    0 <= pos < songs.len() && songs[pos].id@ == id && forall|j: int| 0 <= j < pos ==> songs[j].id@ != id
}

/// What playing the selected queue entry does.
pub open spec fn play_from_queue_post(s: Session, t: Session, now_ms: u64) -> bool {
    let idx = s.ui.queue.queue_selected;
    let songs = s.playlist.playlist.songs@;
    if idx < songs.len() {
        let s1 = with_current_index(s, idx);
        let song = songs[idx as int];
        if s.spec_already_playing(song.id@) {
            notified_state(s1, t, s.ui.spec_tr("notif_already_playing"@), NotificationLevel::Info, now_ms)
        } else {
            t == queued(s1, song)
        }
    } else {
        t == s
    }
}

/// What playing the selected search result does: it is refused while the
/// same song is current; a song already in the queue is played from there,
/// any other is appended to the queue and played.
pub open spec fn play_selected_post(s: Session, t: Session, now_ms: u64) -> bool {
    let idx = s.ui.search.selected_index;
    let results = s.ui.search.search_results@;
    let songs = s.playlist.playlist.songs@;
    if idx < results.len() {
        let song = results[idx as int];
        if s.spec_already_playing(song.id@) {
            notified_state(s, t, s.ui.spec_tr("notif_already_playing"@), NotificationLevel::Info, now_ms)
        } else {
            &&& forall|pos: int| first_with_id(songs, song.id@, pos) ==> t == queued(with_current_index(s, pos as usize), song)
            &&& (forall|j: int| 0 <= j < songs.len() ==> songs[j].id@ != song.id@) ==> {
                &&& t == queued(appended_current(s, t.playlist.playlist.songs), song)
                &&& t.playlist.playlist.songs@ == songs.push(song)
            }
        }
    } else {
        t == s
    }
}

impl Session {
    /// Play the entry selected in the queue, unless it is already current.
    pub fn play_selected_from_queue(&mut self, now_ms: u64)
        ensures
            play_from_queue_post(*old(self), *final(self), now_ms),
    {
        let idx = self.ui.queue.queue_selected;
        if idx < self.playlist.len() {
            self.playlist.set_current_index(idx);
            let ghost s1 = *self;
            assert(s1 == with_current_index(*old(self), idx));
            if let Some(song) = self.playlist.current_song_cloned() {
                if self.guard_already_playing(song.id.as_str()) {
                    self.notify_key("notif_already_playing", NotificationLevel::Info, now_ms);
                    return;
                }
                self.queue_play(song);
            }
        }
    }

    /// Play the selected search result (see `play_selected_post`).
    pub fn schedule_play_selected(&mut self, now_ms: u64)
        ensures
            play_selected_post(*old(self), *final(self), now_ms),
    {
        let idx = self.ui.search.selected_index;
        if idx >= self.ui.search.search_results.len() {
            return;
        }
        let song = self.ui.search.search_results[idx].clone();
        if self.guard_already_playing(song.id.as_str()) {
            self.notify_key("notif_already_playing", NotificationLevel::Info, now_ms);
            return;
        }
        match self.playlist.playlist.position_of(song.id.as_str()) {
            Some(pos) => {
                self.playlist.set_current_index(pos);
                assert(*self == with_current_index(*old(self), pos));
                proof {
                    let songs = old(self).playlist.playlist.songs@;
                    assert forall|p: int| first_with_id(songs, song.id@, p) implies p == pos by {
                        if p < pos {
                            assert(songs[p].id@ != song.id@);
                        } else if p > pos {
                            assert(songs[pos as int].id@ != song.id@);
                        }
                    }
                }
                self.queue_play(song);
            },
            None => {
                let pos = self.playlist.len();
                self.playlist.add(song.clone());
                self.playlist.set_current_index(pos);
                assert(self.playlist.playlist == appended_current(*old(self), self.playlist.playlist.songs).playlist.playlist);
                self.queue_play(song);
            },
        }
    }
}

} // verus!

verus! {

/// The session with the player's loading message replaced.
pub open spec fn with_loading(s: Session, status: Option<String>) -> Session {
    Session { ui: UiState { player: crate::interface::state::PlayerViewState { loading_status: status, ..s.ui.player }, ..s.ui }, ..s }
}

impl Session {
    /// Whether the queue changed since it was last saved.
    pub fn playlist_save_needed(&self) -> (b: bool)
        ensures
            b == (self.playlist.playlist.version != self.last_saved_playlist_version),
    {
        self.playlist.playlist.version != self.last_saved_playlist_version
    }

    /// Record the outcome of saving queue version `version`: on success the
    /// version counts as saved; on failure a warning is shown.
    pub fn on_playlist_saved(&mut self, version: usize, result: Result<(), String>, now_ms: u64)
        ensures
            result is Ok ==> *final(self) == (Session { last_saved_playlist_version: version, ..*old(self) }),
            result matches Err(e) ==> notified_state(*old(self), *final(self),
                "Failed to save playlist: "@ + e@, NotificationLevel::Warning, now_ms),
    {
        match result {
            Ok(()) => {
                self.last_saved_playlist_version = version;
            },
            Err(e) => {
                let mut msg = crate::text::owned("Failed to save playlist: ");
                msg.append(e.as_str());
                self.notify(msg, NotificationLevel::Warning, now_ms);
            },
        }
    }

    /// Take the song queued to play, showing that it is being fetched. The
    /// caller fetches it (audio or stream, by the playback mode) and tags
    /// the resulting events with the returned generation.
    pub fn take_pending_play(&mut self) -> (r: Option<PlayRequest>)
        ensures
            old(self).pending_play is None ==> r is None && *final(self) == *old(self),
            old(self).pending_play matches Some(song) ==> {
                &&& r matches Some(req) && req.song == song && req.generation == old(self).play_generation
                &&& final(self).ui.player.loading_status matches Some(m)
                    && m@ == filled(old(self).ui, "downloading"@, song.title@)
                &&& *final(self) == with_loading(Session { pending_play: None, ..*old(self) },
                    final(self).ui.player.loading_status)
            },
    {
        match self.pending_play.take() {
            Some(song) => {
                let t = self.ui.tr("downloading");
                proof {
                    reveal_strlit("{}");
                }
                let msg = crate::text::replace(t.as_str(), "{}", song.title.as_str());
                self.ui.player.loading_status = Some(msg);
                Some(PlayRequest { song, generation: self.play_generation })
            },
            None => None,
        }
    }

    /// Take the scheduled download (song, directory, format), showing that
    /// it is being fetched.
    pub fn take_download_pending(&mut self) -> (r: Option<(Song, String, String)>)
        ensures
            old(self).ui.download.download_pending is None ==> r is None && *final(self) == *old(self),
            old(self).ui.download.download_pending matches Some(d) ==> {
                &&& r == Some(d)
                &&& final(self).ui.player.loading_status matches Some(m)
                    && m@ == filled(old(self).ui, "downloading"@, d.0.title@)
                &&& *final(self) == with_loading(Session { ui: UiState { download: crate::interface::state::DownloadPopupState {
                    download_pending: None, ..old(self).ui.download }, ..old(self).ui }, ..*old(self) },
                    final(self).ui.player.loading_status)
            },
    {
        match self.ui.download.download_pending.take() {
            Some(d) => {
                let t = self.ui.tr("downloading");
                proof {
                    reveal_strlit("{}");
                }
                let msg = crate::text::replace(t.as_str(), "{}", d.0.title.as_str());
                self.ui.player.loading_status = Some(msg);
                Some(d)
            },
            None => None,
        }
    }
}

} // verus!
