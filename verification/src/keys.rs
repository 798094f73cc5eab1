//! What each key does to the session.
use vstd::prelude::*;

use crate::domain::audio_mode::AudioMode;
use crate::domain::media::{Song, RepeatMode};
use crate::domain::player_state::PlayerState;
use crate::interface::notification::NotificationLevel;
use crate::interface::state::{ActiveScreen, Focus, UiState, UpgradeChoice, SearchState, QueueViewState};
use crate::session::{Effect, Key, KeyCode, KeyOutcome, Session, VolumeStep, notified_state, queued};

verus! {

/// `x - k`, or zero when that is negative.
pub open spec fn sat_sub(x: usize, k: usize) -> usize {
    if x >= k { (x - k) as usize } else { 0 }
}

/// `x + k`, but at most `max`.
pub open spec fn capped_add(x: usize, k: usize, max: usize) -> usize {
    if x + k <= max { (x + k) as usize } else { max }
}

fn exec_sat_sub(x: usize, k: usize) -> (r: usize)
    ensures
        r == sat_sub(x, k),
{
    if x >= k { x - k } else { 0 }
}

fn exec_capped_add(x: usize, k: usize, max: usize) -> (r: usize)
    ensures
        r == capped_add(x, k, max),
{
    if x <= max && k <= max - x { x + k } else { max }
}

pub open spec fn with_focus(s: Session, f: Focus) -> Session {
    Session { ui: UiState { focus: f, ..s.ui }, ..s }
}

pub open spec fn with_screen(s: Session, a: ActiveScreen) -> Session {
    Session { ui: UiState { active_screen: a, ..s.ui }, ..s }
}

pub open spec fn with_selected(s: Session, i: usize) -> Session {
    Session { ui: UiState { search: SearchState { selected_index: i, ..s.ui.search }, ..s.ui }, ..s }
}

pub open spec fn with_queue_selected(s: Session, i: usize) -> Session {
    Session { ui: UiState { queue: QueueViewState { queue_selected: i, ..s.ui.queue }, ..s.ui }, ..s }
}

/// The focus Tab moves to.
pub open spec fn focus_forward(f: Focus) -> Focus {
    match f {
        Focus::SearchInput => Focus::SearchResults,
        Focus::SearchResults => Focus::QueueList,
        Focus::QueueList => Focus::SearchInput,
    }
}

/// The focus Shift+Tab moves to.
pub open spec fn focus_backward(f: Focus) -> Focus {
    match f {
        Focus::SearchInput => Focus::QueueList,
        Focus::SearchResults => Focus::SearchInput,
        Focus::QueueList => Focus::SearchResults,
    }
}

/// The session after a list-navigation key: Tab and Shift+Tab cycle the
/// focus, j/k and the arrows move the selection by one, g/G jump to the
/// top and bottom, Ctrl+u/Ctrl+d move it by ten, h toggles the help screen.
/// Selections stay within their list (the queue's only when it is not
/// empty).
pub open spec fn navigation_result(s: Session, key: Key) -> Session {
    let f = s.ui.focus;
    let sel = s.ui.search.selected_index;
    let rl = s.ui.search.search_results@.len() as usize;
    let qs = s.ui.queue.queue_selected;
    let ql = s.playlist.playlist.songs@.len() as usize;
    match key.code {
        KeyCode::BackTab => with_focus(s, focus_backward(f)),
        KeyCode::Tab => with_focus(s, focus_forward(f)),
        KeyCode::Up => if f == Focus::SearchResults {
            with_selected(s, sat_sub(sel, 1))
        } else if f == Focus::QueueList && ql > 0 {
            with_queue_selected(s, sat_sub(qs, 1))
        } else {
            s
        },
        KeyCode::Down => if f == Focus::SearchResults {
            with_selected(s, capped_add(sel, 1, sat_sub(rl, 1)))
        } else if f == Focus::QueueList && ql > 0 {
            with_queue_selected(s, capped_add(qs, 1, sat_sub(ql, 1)))
        } else {
            s
        },
        KeyCode::Char(c) => if f == Focus::SearchInput {
            s
        } else if c == 'j' {
            if f == Focus::SearchResults {
                with_selected(s, capped_add(sel, 1, sat_sub(rl, 1)))
            } else if ql > 0 {
                with_queue_selected(s, capped_add(qs, 1, sat_sub(ql, 1)))
            } else {
                s
            }
        } else if c == 'k' {
            if f == Focus::SearchResults {
                with_selected(s, sat_sub(sel, 1))
            } else if ql > 0 {
                with_queue_selected(s, sat_sub(qs, 1))
            } else {
                s
            }
        } else if c == 'g' {
            if f == Focus::SearchResults { with_selected(s, 0) } else { with_queue_selected(s, 0) }
        } else if c == 'G' {
            if f == Focus::SearchResults { with_selected(s, sat_sub(rl, 1)) } else { with_queue_selected(s, sat_sub(ql, 1)) }
        } else if c == 'h' {
            with_screen(s, if s.ui.active_screen == ActiveScreen::Help { ActiveScreen::Search } else { ActiveScreen::Help })
        } else if c == 'u' && key.ctrl {
            if f == Focus::SearchResults { with_selected(s, sat_sub(sel, 10)) } else { with_queue_selected(s, sat_sub(qs, 10)) }
        } else if c == 'd' && key.ctrl {
            if f == Focus::SearchResults {
                with_selected(s, capped_add(sel, 10, sat_sub(rl, 1)))
            } else {
                with_queue_selected(s, capped_add(qs, 10, sat_sub(ql, 1)))
            }
        } else {
            s
        },
        _ => s,
    }
}

impl Session {
    /// Move the focus or a selection (see `navigation_result`).
    pub fn handle_list_navigation(&mut self, key: Key)
        ensures
            *final(self) == navigation_result(*old(self), key),
    {
        let f = self.ui.focus;
        let rl = self.ui.search.search_results.len();
        let ql = self.playlist.len();
        let sel = self.ui.search.selected_index;
        let qs = self.ui.queue.queue_selected;
        match key.code {
            KeyCode::BackTab => {
                self.ui.focus = match f {
                    Focus::SearchInput => Focus::QueueList,
                    Focus::SearchResults => Focus::SearchInput,
                    Focus::QueueList => Focus::SearchResults,
                };
            },
            KeyCode::Tab => {
                self.ui.focus = match f {
                    Focus::SearchInput => Focus::SearchResults,
                    Focus::SearchResults => Focus::QueueList,
                    Focus::QueueList => Focus::SearchInput,
                };
            },
            KeyCode::Up => {
                if f == Focus::SearchResults {
                    self.ui.search.selected_index = exec_sat_sub(sel, 1);
                } else if f == Focus::QueueList && ql > 0 {
                    self.ui.queue.queue_selected = exec_sat_sub(qs, 1);
                }
            },
            KeyCode::Down => {
                if f == Focus::SearchResults {
                    self.ui.search.selected_index = exec_capped_add(sel, 1, exec_sat_sub(rl, 1));
                } else if f == Focus::QueueList && ql > 0 {
                    self.ui.queue.queue_selected = exec_capped_add(qs, 1, exec_sat_sub(ql, 1));
                }
            },
            KeyCode::Char(c) => {
                if f == Focus::SearchInput {
                } else if c == 'j' {
                    if f == Focus::SearchResults {
                        self.ui.search.selected_index = exec_capped_add(sel, 1, exec_sat_sub(rl, 1));
                    } else if ql > 0 {
                        self.ui.queue.queue_selected = exec_capped_add(qs, 1, exec_sat_sub(ql, 1));
                    }
                } else if c == 'k' {
                    if f == Focus::SearchResults {
                        self.ui.search.selected_index = exec_sat_sub(sel, 1);
                    } else if ql > 0 {
                        self.ui.queue.queue_selected = exec_sat_sub(qs, 1);
                    }
                } else if c == 'g' {
                    if f == Focus::SearchResults {
                        self.ui.search.selected_index = 0;
                    } else {
                        self.ui.queue.queue_selected = 0;
                    }
                } else if c == 'G' {
                    if f == Focus::SearchResults {
                        self.ui.search.selected_index = exec_sat_sub(rl, 1);
                    } else {
                        self.ui.queue.queue_selected = exec_sat_sub(ql, 1);
                    }
                } else if c == 'h' {
                    self.ui.active_screen = if self.ui.active_screen == ActiveScreen::Help {
                        ActiveScreen::Search
                    } else {
                        ActiveScreen::Help
                    };
                } else if c == 'u' && key.ctrl {
                    if f == Focus::SearchResults {
                        self.ui.search.selected_index = exec_sat_sub(sel, 10);
                    } else {
                        self.ui.queue.queue_selected = exec_sat_sub(qs, 10);
                    }
                } else if c == 'd' && key.ctrl {
                    if f == Focus::SearchResults {
                        self.ui.search.selected_index = exec_capped_add(sel, 10, exec_sat_sub(rl, 1));
                    } else {
                        self.ui.queue.queue_selected = exec_capped_add(qs, 10, exec_sat_sub(ql, 1));
                    }
                }
            },
            _ => {},
        }
    }
}

} // verus!

verus! {

/// A save request when the queue changed since it was last saved.
pub open spec fn save_effects(t: Session) -> Seq<Effect> {
    if t.playlist.playlist.version != t.last_saved_playlist_version { seq![Effect::SavePlaylist] } else { seq![] }
}

/// The accent colour presets, cycled through in the settings screen.
pub open spec fn preset(i: int) -> Seq<char> {
    if i == 0 { "#00ddff"@ } else if i == 1 { "#ff77aa"@ } else if i == 2 { "#55ff77"@ }
    else if i == 3 { "#ffaa22"@ } else if i == 4 { "#aa66ff"@ } else if i == 5 { "#ff6644"@ }
    else if i == 6 { "#44ddff"@ } else if i == 7 { "#ff44aa"@ } else if i == 8 { "#88dd00"@ }
    else if i == 9 { "#00ffbb"@ } else if i == 10 { "#dd88ff"@ } else if i == 11 { "#ffbb33"@ }
    else if i == 12 { "#33ffaa"@ } else if i == 13 { "#ff8833"@ } else if i == 14 { "#6699ff"@ }
    else { "#ff5599"@ }
}

/// The first preset index at or after `i` whose colour is `accent`, or -1.
pub open spec fn preset_index_from(accent: Seq<char>, i: int) -> int
    decreases 16 - i,
{
    if i >= 16 || i < 0 { -1 } else if preset(i) == accent { i } else { preset_index_from(accent, i + 1) }
}

/// The preset after `accent`; the first preset when `accent` is none of them.
pub open spec fn next_accent(accent: Seq<char>) -> Seq<char> {
    let i = preset_index_from(accent, 0);
    if i < 0 { preset(0) } else { preset((i + 1) % 16) }
}

fn preset_at(i: usize) -> (s: &'static str)
    requires
        i < 16,
    ensures
        s@ == preset(i as int),
{
    if i == 0 { "#00ddff" } else if i == 1 { "#ff77aa" } else if i == 2 { "#55ff77" }
    else if i == 3 { "#ffaa22" } else if i == 4 { "#aa66ff" } else if i == 5 { "#ff6644" }
    else if i == 6 { "#44ddff" } else if i == 7 { "#ff44aa" } else if i == 8 { "#88dd00" }
    else if i == 9 { "#00ffbb" } else if i == 10 { "#dd88ff" } else if i == 11 { "#ffbb33" }
    else if i == 12 { "#33ffaa" } else if i == 13 { "#ff8833" } else if i == 14 { "#6699ff" }
    else { "#ff5599" }
}

/// The preset after `accent` (see `next_accent`).
pub fn cycle_accent(accent: &str) -> (s: &'static str)
    ensures
        s@ == next_accent(accent@),
{
    let mut i: usize = 0;
    while i < 16
        invariant
            i <= 16,
            preset_index_from(accent@, 0) == preset_index_from(accent@, i as int),
        decreases 16 - i,
    {
        if crate::text::str_eq(accent, preset_at(i)) {
            return preset_at((i + 1) % 16);
        }
        i = i + 1;
    }
    preset_at(0)
}

/// The translation key announcing a repeat mode.
pub open spec fn repeat_notice_key(m: RepeatMode) -> Seq<char> {
    match m {
        RepeatMode::Off => "notif_repeat_off"@,
        RepeatMode::All => "notif_repeat_all"@,
        RepeatMode::One => "notif_repeat_one"@,
    }
}

fn repeat_notice(m: RepeatMode) -> (s: &'static str)
    ensures
        s@ == repeat_notice_key(m),
{
    match m {
        RepeatMode::Off => "notif_repeat_off",
        RepeatMode::All => "notif_repeat_all",
        RepeatMode::One => "notif_repeat_one",
    }
}

/// The audio format of a download-format row: m4a, mp3, opus, flac, wav.
pub open spec fn format_name(i: usize) -> Seq<char> {
    if i == 0 { "m4a"@ } else if i == 1 { "mp3"@ } else if i == 2 { "opus"@ } else if i == 3 { "flac"@ } else { "wav"@ }
}

fn format_of(i: usize) -> (s: &'static str)
    ensures
        s@ == format_name(i),
{
    if i == 0 { "m4a" } else if i == 1 { "mp3" } else if i == 2 { "opus" } else if i == 3 { "flac" } else { "wav" }
}

/// The session with the popup hidden and its upgrade offer dropped.
pub open spec fn upgrade_dismissed(s: Session) -> Session {
    Session { ui: UiState { show_upgrade_popup: false, pending_upgrade: None, ..s.ui }, ..s }
}

/// What starting an upgrade does: the popup closes, the interface shows
/// that an upgrade runs, and the offered release is handed to the caller.
pub open spec fn start_upgrade_post(s: Session, t: Session, effects: Seq<Effect>, now_ms: u64) -> bool {
    let s1 = Session { ui: UiState {
        show_upgrade_popup: false, is_upgrading: true, upgrade_selection: UpgradeChoice::Yes,
        pending_upgrade: None, ..s.ui }, ..s };
    &&& notified_state(s1, t, s.ui.spec_tr("upgrade_downloading"@), NotificationLevel::Info, now_ms)
    &&& match s.ui.pending_upgrade {
        Some((v, u)) => effects.len() == 1 && (effects[0] matches Effect::StartUpgrade(v2, u2) && v2 == v && u2 == u),
        None => effects.len() == 0,
    }
}

/// What a key does while the upgrade popup is shown: the arrows choose a
/// button, Enter applies it, y confirms, n and Esc dismiss.
pub open spec fn upgrade_key_post(s: Session, t: Session, key: Key, effects: Seq<Effect>, now_ms: u64) -> bool {
    match key.code {
        KeyCode::Left => t == Session { ui: UiState { upgrade_selection: UpgradeChoice::Yes, ..s.ui }, ..s } && effects.len() == 0,
        KeyCode::Right => t == Session { ui: UiState { upgrade_selection: UpgradeChoice::No, ..s.ui }, ..s } && effects.len() == 0,
        KeyCode::Enter => if s.ui.upgrade_selection == UpgradeChoice::Yes {
            start_upgrade_post(s, t, effects, now_ms)
        } else {
            t == upgrade_dismissed(s) && effects.len() == 0
        },
        KeyCode::Char(c) => if c == 'y' || c == 'Y' {
            start_upgrade_post(s, t, effects, now_ms)
        } else if c == 'n' || c == 'N' {
            t == upgrade_dismissed(s) && effects.len() == 0
        } else {
            t == s && effects.len() == 0
        },
        KeyCode::Esc => t == upgrade_dismissed(s) && effects.len() == 0,
        _ => t == s && effects.len() == 0,
    }
}

/// What a key does while the download-format popup is shown: the arrows
/// choose a format (five rows), Enter or Space schedule the download into
/// the configured folder and close the popup, Esc and q close it.
pub open spec fn download_popup_post(s: Session, t: Session, key: Key) -> bool {
    let d = s.ui.download;
    match key.code {
        KeyCode::Up => t == Session { ui: UiState { download: crate::interface::state::DownloadPopupState {
            download_format: sat_sub(d.download_format, 1), ..d }, ..s.ui }, ..s },
        KeyCode::Down => t == Session { ui: UiState { download: crate::interface::state::DownloadPopupState {
            download_format: capped_add(d.download_format, 1, 4), ..d }, ..s.ui }, ..s },
        KeyCode::Enter => popup_confirmed(s, t),
        KeyCode::Char(c) => if c == ' ' {
            popup_confirmed(s, t)
        } else if c == 'q' || c == 'Q' {
            t == Session { ui: UiState { download: crate::interface::state::DownloadPopupState {
                show_download_popup: false, ..d }, ..s.ui }, ..s }
        } else {
            t == s
        },
        KeyCode::Esc => t == Session { ui: UiState { download: crate::interface::state::DownloadPopupState {
            show_download_popup: false, ..d }, ..s.ui }, ..s },
        _ => t == s,
    }
}

pub open spec fn popup_confirmed(s: Session, t: Session) -> bool {
    let d = s.ui.download;
    match d.download_song {
        Some(song) => {
            &&& (t.ui.download.download_pending matches Some((sg, dir, fmt))
                && sg == song && dir@ == s.ui.config.download_path@ && fmt@ == format_name(d.download_format))
            &&& t == Session { ui: UiState { download: crate::interface::state::DownloadPopupState {
                show_download_popup: false, download_song: None, download_pending: t.ui.download.download_pending, ..d },
                ..s.ui }, ..s }
        },
        None => t == Session { ui: UiState { download: crate::interface::state::DownloadPopupState {
            show_download_popup: false, ..d }, ..s.ui }, ..s },
    }
}

impl Session {
    fn push_save_if_needed(&self, effects: &mut Vec<Effect>)
        ensures
            final(effects)@ == old(effects)@ + save_effects(*self),
    {
        if self.playlist.playlist.version != self.last_saved_playlist_version {
            effects.push(Effect::SavePlaylist);
            assert(final(effects)@ =~= old(effects)@ + save_effects(*self));
        } else {
            assert(old(effects)@ + save_effects(*self) =~= old(effects)@);
        }
    }

    /// Start the offered upgrade (see `start_upgrade_post`).
    pub fn start_upgrade(&mut self, now_ms: u64) -> (effects: Vec<Effect>)
        ensures
            start_upgrade_post(*old(self), *final(self), effects@, now_ms),
    {
        self.ui.show_upgrade_popup = false;
        self.ui.is_upgrading = true;
        self.ui.upgrade_selection = UpgradeChoice::Yes;
        let offer = self.ui.pending_upgrade.take();
        self.notify_key("upgrade_downloading", NotificationLevel::Info, now_ms);
        let mut effects: Vec<Effect> = Vec::new();
        if let Some((version, url)) = offer {
            effects.push(Effect::StartUpgrade(version, url));
        }
        effects
    }

    fn dismiss_upgrade(&mut self)
        ensures
            *final(self) == upgrade_dismissed(*old(self)),
    {
        self.ui.show_upgrade_popup = false;
        self.ui.pending_upgrade = None;
    }

    /// A key while the upgrade popup is shown (see `upgrade_key_post`).
    pub fn handle_upgrade_popup_key(&mut self, key: Key, now_ms: u64) -> (effects: Vec<Effect>)
        ensures
            upgrade_key_post(*old(self), *final(self), key, effects@, now_ms),
    {
        match key.code {
            KeyCode::Left => {
                self.ui.upgrade_selection = UpgradeChoice::Yes;
                Vec::new()
            },
            KeyCode::Right => {
                self.ui.upgrade_selection = UpgradeChoice::No;
                Vec::new()
            },
            KeyCode::Enter => {
                match self.ui.upgrade_selection {
                    UpgradeChoice::Yes => self.start_upgrade(now_ms),
                    UpgradeChoice::No => {
                        self.dismiss_upgrade();
                        Vec::new()
                    },
                }
            },
            KeyCode::Char(c) => {
                if c == 'y' || c == 'Y' {
                    self.start_upgrade(now_ms)
                } else if c == 'n' || c == 'N' {
                    self.dismiss_upgrade();
                    Vec::new()
                } else {
                    Vec::new()
                }
            },
            KeyCode::Esc => {
                self.dismiss_upgrade();
                Vec::new()
            },
            _ => Vec::new(),
        }
    }

    /// A key while the download-format popup is shown (see
    /// `download_popup_post`).
    pub fn handle_download_popup_key(&mut self, key: Key)
        ensures
            download_popup_post(*old(self), *final(self), key),
    {
        match key.code {
            KeyCode::Up => {
                self.ui.download.download_format = exec_sat_sub(self.ui.download.download_format, 1);
            },
            KeyCode::Down => {
                self.ui.download.download_format = exec_capped_add(self.ui.download.download_format, 1, 4);
            },
            KeyCode::Enter => self.confirm_download(),
            KeyCode::Char(c) => {
                if c == ' ' {
                    self.confirm_download();
                } else if c == 'q' || c == 'Q' {
                    self.ui.download.show_download_popup = false;
                }
            },
            KeyCode::Esc => {
                self.ui.download.show_download_popup = false;
            },
            _ => {},
        }
    }

    fn confirm_download(&mut self)
        ensures
            popup_confirmed(*old(self), *final(self)),
    {
        match self.ui.download.download_song.take() {
            Some(song) => {
                let dir = self.ui.config.download_path.clone();
                let fmt = crate::text::owned(format_of(self.ui.download.download_format));
                self.ui.download.show_download_popup = false;
                self.ui.download.download_pending = Some((song, dir, fmt));
            },
            None => {
                self.ui.download.show_download_popup = false;
            },
        }
    }
}

} // verus!

verus! {

pub open spec fn to_search_input(s: Session) -> Session {
    Session { ui: UiState { active_screen: ActiveScreen::Search, focus: Focus::SearchInput, ..s.ui }, ..s }
}

pub open spec fn with_settings_focus(s: Session, i: usize) -> Session {
    Session { ui: UiState { settings: crate::interface::state::SettingsState { settings_focus: i }, ..s.ui }, ..s }
}

pub open spec fn with_config(s: Session, c: crate::interface::state::ConfigState) -> Session {
    Session { ui: UiState { config: c, ..s.ui }, ..s }
}

/// The byte length of a string's UTF-8 encoding.
pub open spec fn byte_len(s: Seq<char>) -> usize {
    vstd::utf8::encode_utf8(s).len() as usize
}

/// What Enter (or Space) does on a settings row: 0 toggles the dark and
/// light themes, 1 cycles the accent colour, 4 opens the folder dialog,
/// 5 toggles English and Spanish, 6 toggles audio and video mode, 7 cycles
/// the repeat mode; the other rows do nothing.
pub open spec fn settings_enter_post(s: Session, t: Session, effects: Seq<Effect>, now_ms: u64) -> bool {
    let c = s.ui.config;
    let row = s.ui.settings.settings_focus;
    if row == 0 {
        let name = if c.theme_name@ == "dark"@ { "light"@ } else { "dark"@ };
        let s1 = with_config(s, crate::interface::state::ConfigState { theme_name: t.ui.config.theme_name, cached_theme: None, ..c });
        &&& t.ui.config.theme_name@ == name
        &&& notified_state(s1, t, crate::session::filled(s.ui, "notif_theme"@, name), NotificationLevel::Info, now_ms)
        &&& effects.len() == 0
    } else if row == 1 {
        let s1 = with_config(s, crate::interface::state::ConfigState { accent_color: t.ui.config.accent_color, cached_theme: None, ..c });
        &&& t.ui.config.accent_color@ == next_accent(c.accent_color@)
        &&& notified_state(s1, t, s.ui.spec_tr("notif_accent"@), NotificationLevel::Info, now_ms)
        &&& effects.len() == 0
    } else if row == 4 {
        t == s && effects == seq![Effect::PickFolder]
    } else if row == 5 {
        let lang = if c.language@ == "es"@ { "en"@ } else { "es"@ };
        &&& t.ui.config.language@ == lang
        &&& t.ui.config.translations.spec_language() == lang
        &&& t.ui.config.translations.spec_entries() == crate::interface::i18n::loaded_entries(lang)
        &&& t == with_config(s, crate::interface::state::ConfigState {
            language: t.ui.config.language, translations: t.ui.config.translations, ..c })
        &&& effects.len() == 0
    } else if row == 6 {
        t == s && effects == seq![Effect::ToggleMode { report: true }]
    } else if row == 7 {
        let m = s.playlist.playlist.repeat_mode.spec_next();
        let s1 = Session { playlist: crate::application::playlist::PlaylistUseCase {
            playlist: crate::domain::media::Playlist { repeat_mode: m, ..s.playlist.playlist } }, ..s };
        &&& notified_state(s1, t, s.ui.spec_tr(repeat_notice_key(m)), NotificationLevel::Info, now_ms)
        &&& effects.len() == 0
    } else {
        t == s && effects.len() == 0
    }
}

/// What a key does on the settings screen: q and Esc return to the search
/// input, the arrows choose a row (0 to 7), Enter and Space change it, `+`
/// and `-` step the volume (row 2) or the search limit (row 3, by 5 within
/// 1..50), and on row 4 other characters and Backspace edit the download
/// path (at most 300 bytes).
pub open spec fn settings_key_post(s: Session, t: Session, key: Key, effects: Seq<Effect>, now_ms: u64) -> bool {
    let row = s.ui.settings.settings_focus;
    let c = s.ui.config;
    match key.code {
        KeyCode::Esc => t == to_search_input(s) && effects.len() == 0,
        KeyCode::Up => t == with_settings_focus(s, sat_sub(row, 1)) && effects.len() == 0,
        KeyCode::Down => t == with_settings_focus(s, capped_add(row, 1, 7)) && effects.len() == 0,
        KeyCode::Enter => settings_enter_post(s, t, effects, now_ms),
        KeyCode::Backspace => if row == 4 {
            &&& t.ui.config.download_path@ == (if c.download_path@.len() > 0 { c.download_path@.drop_last() } else { c.download_path@ })
            &&& t == with_config(s, crate::interface::state::ConfigState { download_path: t.ui.config.download_path, ..c })
            &&& effects.len() == 0
        } else {
            t == s && effects.len() == 0
        },
        KeyCode::Char(ch) => if ch == 'q' || ch == 'Q' {
            t == to_search_input(s) && effects.len() == 0
        } else if ch == ' ' {
            settings_enter_post(s, t, effects, now_ms)
        } else if ch == '=' || ch == '+' {
            if row == 2 {
                t == s && effects == seq![Effect::Volume { step: VolumeStep::Up, report: false }]
            } else if row == 3 {
                t == with_config(s, crate::interface::state::ConfigState {
                    default_search_limit: capped_add(c.default_search_limit, 5, 50), ..c }) && effects.len() == 0
            } else {
                t == s && effects.len() == 0
            }
        } else if ch == '-' || ch == '_' {
            if row == 2 {
                t == s && effects == seq![Effect::Volume { step: VolumeStep::Down, report: false }]
            } else if row == 3 {
                t == with_config(s, crate::interface::state::ConfigState {
                    default_search_limit: if sat_sub(c.default_search_limit, 5) >= 1 { sat_sub(c.default_search_limit, 5) } else { 1 },
                    ..c }) && effects.len() == 0
            } else {
                t == s && effects.len() == 0
            }
        } else if row == 4 {
            &&& t.ui.config.download_path@ == (if byte_len(c.download_path@) < 300 { c.download_path@.push(ch) } else { c.download_path@ })
            &&& t == with_config(s, crate::interface::state::ConfigState { download_path: t.ui.config.download_path, ..c })
            &&& effects.len() == 0
        } else {
            t == s && effects.len() == 0
        },
        _ => t == s && effects.len() == 0,
    }
}

impl Session {
    fn settings_enter(&mut self, now_ms: u64) -> (effects: Vec<Effect>)
        ensures
            settings_enter_post(*old(self), *final(self), effects@, now_ms),
    {
        let row = self.ui.settings.settings_focus;
        proof {
            reveal_strlit("dark");
            reveal_strlit("light");
            reveal_strlit("es");
            reveal_strlit("en");
        }
        if row == 0 {
            let name = if crate::text::str_eq(self.ui.config.theme_name.as_str(), "dark") { "light" } else { "dark" };
            self.ui.config.theme_name = crate::text::owned(name);
            self.ui.invalidate_theme();
            let shown = self.ui.config.theme_name.clone();
            self.notify_key_arg("notif_theme", shown.as_str(), NotificationLevel::Info, now_ms);
            Vec::new()
        } else if row == 1 {
            let next = cycle_accent(self.ui.config.accent_color.as_str());
            self.ui.config.accent_color = crate::text::owned(next);
            self.ui.invalidate_theme();
            self.notify_key("notif_accent", NotificationLevel::Info, now_ms);
            Vec::new()
        } else if row == 4 {
            let mut v = Vec::new();
            v.push(Effect::PickFolder);
            v
        } else if row == 5 {
            let lang = if crate::text::str_eq(self.ui.config.language.as_str(), "es") { "en" } else { "es" };
            self.ui.config.language = crate::text::owned(lang);
            self.ui.config.translations = crate::interface::i18n::Translations::load(lang);
            Vec::new()
        } else if row == 6 {
            let mut v = Vec::new();
            v.push(Effect::ToggleMode { report: true });
            v
        } else if row == 7 {
            let next = self.playlist.repeat_mode().next();
            let mode = self.playlist.set_repeat_mode(next);
            self.notify_key(repeat_notice(mode), NotificationLevel::Info, now_ms);
            Vec::new()
        } else {
            Vec::new()
        }
    }

    /// A key on the settings screen (see `settings_key_post`).
    pub fn handle_settings_key(&mut self, key: Key, now_ms: u64) -> (effects: Vec<Effect>)
        ensures
            settings_key_post(*old(self), *final(self), key, effects@, now_ms),
    {
        let row = self.ui.settings.settings_focus;
        match key.code {
            KeyCode::Esc => {
                self.ui.active_screen = ActiveScreen::Search;
                self.ui.focus = Focus::SearchInput;
                Vec::new()
            },
            KeyCode::Up => {
                self.ui.settings.settings_focus = exec_sat_sub(row, 1);
                Vec::new()
            },
            KeyCode::Down => {
                self.ui.settings.settings_focus = exec_capped_add(row, 1, 7);
                Vec::new()
            },
            KeyCode::Enter => self.settings_enter(now_ms),
            KeyCode::Backspace => {
                if row == 4 {
                    let _ = crate::text::pop_char(&mut self.ui.config.download_path);
                }
                Vec::new()
            },
            KeyCode::Char(ch) => {
                if ch == 'q' || ch == 'Q' {
                    self.ui.active_screen = ActiveScreen::Search;
                    self.ui.focus = Focus::SearchInput;
                    Vec::new()
                } else if ch == ' ' {
                    self.settings_enter(now_ms)
                } else if ch == '=' || ch == '+' {
                    let mut v = Vec::new();
                    if row == 2 {
                        v.push(Effect::Volume { step: VolumeStep::Up, report: false });
                    } else if row == 3 {
                        self.ui.config.default_search_limit = exec_capped_add(self.ui.config.default_search_limit, 5, 50);
                    }
                    v
                } else if ch == '-' || ch == '_' {
                    let mut v = Vec::new();
                    if row == 2 {
                        v.push(Effect::Volume { step: VolumeStep::Down, report: false });
                    } else if row == 3 {
                        let d = exec_sat_sub(self.ui.config.default_search_limit, 5);
                        self.ui.config.default_search_limit = if d >= 1 { d } else { 1 };
                    }
                    v
                } else if row == 4 {
                    if self.ui.config.download_path.as_str().len() < 300 {
                        crate::text::push_char(&mut self.ui.config.download_path, ch);
                    }
                    Vec::new()
                } else {
                    Vec::new()
                }
            },
            _ => Vec::new(),
        }
    }
}

} // verus!

verus! {

/// The session after the queue moves to `index`.
pub open spec fn at_index(s: Session, index: usize) -> Session {
    Session { playlist: crate::application::playlist::PlaylistUseCase {
        playlist: crate::domain::media::Playlist { current_index: index, ..s.playlist.playlist } }, ..s }
}

/// `n`: the next song of the queue plays, if there is one.
pub open spec fn next_song_post(s: Session, t: Session) -> bool {
    let p = s.playlist.playlist;
    let i = crate::domain::media::next_index(p.songs@.len() as int, p.current_index, p.repeat_mode);
    if crate::domain::media::next_moves(p.songs@.len() as int, p.current_index, p.repeat_mode) {
        t == queued(at_index(s, i), p.songs@[i as int])
    } else {
        t == at_index(s, i)
    }
}

/// `p`: the previous song of the queue plays, if there is one.
pub open spec fn previous_song_post(s: Session, t: Session) -> bool {
    let p = s.playlist.playlist;
    let i = crate::domain::media::previous_index(p.songs@.len() as int, p.current_index, p.repeat_mode);
    if crate::domain::media::previous_moves(p.songs@.len() as int, p.current_index, p.repeat_mode) {
        t == queued(at_index(s, i), p.songs@[i as int])
    } else {
        t == at_index(s, i)
    }
}

/// `r`: the repeat mode advances and is announced.
pub open spec fn cycle_repeat_post(s: Session, t: Session, now_ms: u64) -> bool {
    let m = s.playlist.playlist.repeat_mode.spec_next();
    let s1 = Session { playlist: crate::application::playlist::PlaylistUseCase {
        playlist: crate::domain::media::Playlist { repeat_mode: m, ..s.playlist.playlist } }, ..s };
    notified_state(s1, t, s.ui.spec_tr(repeat_notice_key(m)), NotificationLevel::Info, now_ms)
}

/// What a key does on the player screen: Space pauses or resumes, n and p
/// change song, r cycles the repeat mode, `+` and `-` step the volume, q
/// returns to the search input, s stops playback.
pub open spec fn player_key_post(s: Session, t: Session, key: Key, ctx: crate::session::KeyContext, effects: Seq<Effect>) -> bool {
    match key.code {
        KeyCode::Char(c) => if c == ' ' {
            t == s && effects == (if ctx.player_state == PlayerState::Playing {
                seq![Effect::Pause]
            } else if ctx.player_state == PlayerState::Paused {
                seq![Effect::Resume]
            } else {
                seq![]
            })
        } else if c == 'n' {
            next_song_post(s, t) && effects.len() == 0
        } else if c == 'p' {
            previous_song_post(s, t) && effects.len() == 0
        } else if c == 'r' {
            cycle_repeat_post(s, t, ctx.now_ms) && effects.len() == 0
        } else if c == '=' || c == '+' {
            t == s && effects == seq![Effect::Volume { step: VolumeStep::Up, report: true }]
        } else if c == '-' || c == '_' {
            t == s && effects == seq![Effect::Volume { step: VolumeStep::Down, report: true }]
        } else if c == 'q' || c == 'Q' {
            t == to_search_input(s) && effects.len() == 0
        } else if c == 's' {
            t == s && effects == seq![Effect::Stop]
        } else {
            t == s && effects.len() == 0
        },
        _ => t == s && effects.len() == 0,
    }
}

/// What a key does in the search box: Tab and Shift+Tab leave it, Enter
/// starts a search (ignored when empty or within 300 ms of the previous
/// one), Backspace deletes, other characters are typed (up to 200 bytes).
pub open spec fn search_input_post(s: Session, t: Session, key: Key, now_ms: u64, effects: Seq<Effect>) -> bool {
    let q = s.ui.search.search_query@;
    match key.code {
        KeyCode::Tab => t == with_focus(s, Focus::SearchResults) && effects.len() == 0,
        KeyCode::BackTab => t == with_focus(s, Focus::QueueList) && effects.len() == 0,
        KeyCode::Enter => if q.len() == 0 || (s.last_search_ms matches Some(l) && sat_sub64(now_ms, l) < 300) {
            t == s && effects.len() == 0
        } else {
            &&& t.ui.search.search_results@.len() == 0
            &&& t == Session {
                last_search_ms: Some(now_ms),
                ui: UiState { search: SearchState { is_searching: true, search_results: t.ui.search.search_results, ..s.ui.search }, ..s.ui },
                ..s }
            &&& effects.len() == 1
            &&& (effects[0] matches Effect::Search(query, limit) && query@ == q && limit == s.ui.config.default_search_limit)
        },
        KeyCode::Backspace => {
            &&& t.ui.search.search_query@ == (if q.len() > 0 { q.drop_last() } else { q })
            &&& t == Session { ui: UiState { search: SearchState { search_query: t.ui.search.search_query, ..s.ui.search }, ..s.ui }, ..s }
            &&& effects.len() == 0
        },
        KeyCode::Char(c) => {
            &&& t.ui.search.search_query@ == (if byte_len(q) < 200 { q.push(c) } else { q })
            &&& t == Session { ui: UiState { search: SearchState { search_query: t.ui.search.search_query, ..s.ui.search }, ..s.ui }, ..s }
            &&& effects.len() == 0
        },
        _ => t == s && effects.len() == 0,
    }
}

pub open spec fn sat_sub64(x: u64, y: u64) -> u64 {
    if x >= y { (x - y) as u64 } else { 0 }
}

/// What a playback key does while a list has the focus: like the player
/// screen, except that Space starts the selected search result when
/// nothing plays, `v` toggles audio and video mode, and q exits.
pub open spec fn playback_controls_post(s: Session, t: Session, key: Key, ctx: crate::session::KeyContext, o: KeyResult) -> bool {
    match key.code {
        KeyCode::Char(c) => if c == ' ' {
            if ctx.player_state == PlayerState::Playing {
                t == s && o.effects == seq![Effect::Pause] && !o.exit
            } else if ctx.player_state == PlayerState::Paused {
                t == s && o.effects == seq![Effect::Resume] && !o.exit
            } else {
                crate::session::play_selected_post(s, t, ctx.now_ms) && o.effects == save_effects(t) && !o.exit
            }
        } else if c == 'q' || c == 'Q' {
            t == s && o.effects.len() == 0 && o.exit
        } else if c == 'v' {
            t == s && o.effects == seq![Effect::ToggleMode { report: false }] && !o.exit
        } else {
            player_key_post(s, t, key, ctx, o.effects) && !o.exit
        },
        _ => t == s && o.effects.len() == 0 && !o.exit,
    }
}

/// A key's result in ghost form: whether it exits, and the work it asks for.
pub struct KeyResult {
    pub exit: bool,
    pub effects: Seq<Effect>,
}

/// What a queue key does: Enter plays the selection (a search result, or
/// the queue entry), `a` adds the selected result to the queue unless a
/// song with its id is there, Delete removes the selected queue entry and
/// its cached audio, `d` opens the download popup for the selection, `c`
/// and `C` clear the queue and its cached audio. Edits of the queue ask
/// for it to be saved.
pub open spec fn queue_actions_post(s: Session, t: Session, key: Key, now_ms: u64, effects: Seq<Effect>) -> bool {
    let f = s.ui.focus;
    let songs = s.playlist.playlist.songs@;
    let results = s.ui.search.search_results@;
    match key.code {
        KeyCode::Enter => if f == Focus::SearchResults {
            crate::session::play_selected_post(s, t, now_ms) && effects == save_effects(t)
        } else if f == Focus::QueueList {
            crate::session::play_from_queue_post(s, t, now_ms) && effects.len() == 0
        } else {
            t == s && effects.len() == 0
        },
        KeyCode::Delete => if f == Focus::QueueList && songs.len() > 0 && s.ui.queue.queue_selected >= songs.len() {
            t == s && effects == save_effects(s)
        } else if f == Focus::QueueList && songs.len() > 0 {
            let idx = s.ui.queue.queue_selected;
            &&& t.playlist.playlist.songs@ == songs.remove(idx as int)
            &&& t == Session { playlist: crate::application::playlist::PlaylistUseCase {
                playlist: crate::domain::media::Playlist {
                    songs: t.playlist.playlist.songs,
                    current_index: crate::domain::media::index_after_remove(
                        s.playlist.playlist.current_index as int, idx as int, songs.len() as int) as usize,
                    version: crate::domain::media::bump(s.playlist.playlist.version),
                    ..s.playlist.playlist } }, ..s }
            &&& effects.len() == 1 + save_effects(t).len()
            &&& (effects[0] matches Effect::RemoveCached(id) && id@ == songs[idx as int].id@)
            &&& effects.subrange(1, effects.len() as int) == save_effects(t)
        } else {
            t == s && effects.len() == 0
        },
        KeyCode::Char(c) => if c == 'a' {
            if f == Focus::SearchResults && s.ui.search.selected_index < results.len() {
                let song = results[s.ui.search.selected_index as int];
                if exists|j: int| 0 <= j < songs.len() && songs[j].id@ == song.id@ {
                    notified_state(s, t, crate::session::filled(s.ui, "notif_already_in_queue"@, song.title@),
                        NotificationLevel::Warning, now_ms) && effects.len() == 0
                } else {
                    let s1 = Session { playlist: crate::application::playlist::PlaylistUseCase {
                        playlist: crate::domain::media::Playlist {
                            songs: t.playlist.playlist.songs,
                            version: crate::domain::media::bump(s.playlist.playlist.version),
                            ..s.playlist.playlist } }, ..s };
                    &&& t.playlist.playlist.songs@ == songs.push(song)
                    &&& notified_state(s1, t, crate::session::filled(s.ui, "notif_added_to_queue"@, song.title@),
                        NotificationLevel::Success, now_ms)
                    &&& effects == save_effects(t)
                }
            } else {
                t == s && effects.len() == 0
            }
        } else if c == 'd' {
            let picked = if f == Focus::SearchResults {
                if s.ui.search.selected_index < results.len() { Some(results[s.ui.search.selected_index as int]) } else { None }
            } else if f == Focus::QueueList {
                if s.ui.queue.queue_selected < songs.len() { Some(songs[s.ui.queue.queue_selected as int]) } else { None }
            } else {
                s.ui.download.download_song
            };
            &&& t == Session { ui: UiState { download: crate::interface::state::DownloadPopupState {
                download_song: picked,
                show_download_popup: if picked is Some { true } else { s.ui.download.show_download_popup },
                download_format: if picked is Some { 0 } else { s.ui.download.download_format },
                ..s.ui.download }, ..s.ui }, ..s }
            &&& effects.len() == 0
        } else if (c == 'c' || c == 'C') && f == Focus::QueueList {
            &&& t.playlist.playlist.songs@.len() == 0
            &&& t == Session { playlist: crate::application::playlist::PlaylistUseCase {
                playlist: crate::domain::media::Playlist {
                    songs: t.playlist.playlist.songs,
                    current_index: 0,
                    version: crate::domain::media::bump(s.playlist.playlist.version),
                    ..s.playlist.playlist } }, ..s }
            &&& effects.len() == songs.len() + save_effects(t).len()
            &&& forall|j: int| 0 <= j < songs.len() ==> (#[trigger] effects[j] matches Effect::RemoveCached(id) && id@ == songs[j].id@)
            &&& effects.subrange(songs.len() as int, effects.len() as int) == save_effects(t)
        } else {
            t == s && effects.len() == 0
        },
        _ => t == s && effects.len() == 0,
    }
}

} // verus!

verus! {

impl Session {
    fn next_song(&mut self)
        ensures
            next_song_post(*old(self), *final(self)),
    {
        if let Some(song) = self.playlist.next() {
            self.queue_play(song);
        }
    }

    fn previous_song(&mut self)
        ensures
            previous_song_post(*old(self), *final(self)),
    {
        if let Some(song) = self.playlist.previous() {
            self.queue_play(song);
        }
    }

    fn cycle_repeat(&mut self, now_ms: u64)
        ensures
            cycle_repeat_post(*old(self), *final(self), now_ms),
    {
        let mode = self.playlist.cycle_repeat_mode();
        self.notify_key(repeat_notice(mode), NotificationLevel::Info, now_ms);
    }

    /// A key on the player screen (see `player_key_post`).
    pub fn handle_player_key(&mut self, key: Key, ctx: crate::session::KeyContext) -> (effects: Vec<Effect>)
        ensures
            player_key_post(*old(self), *final(self), key, ctx, effects@),
    {
        let mut effects: Vec<Effect> = Vec::new();
        match key.code {
            KeyCode::Char(c) => {
                if c == ' ' {
                    if ctx.player_state == PlayerState::Playing {
                        effects.push(Effect::Pause);
                    } else if ctx.player_state == PlayerState::Paused {
                        effects.push(Effect::Resume);
                    }
                } else if c == 'n' {
                    self.next_song();
                } else if c == 'p' {
                    self.previous_song();
                } else if c == 'r' {
                    self.cycle_repeat(ctx.now_ms);
                } else if c == '=' || c == '+' {
                    effects.push(Effect::Volume { step: VolumeStep::Up, report: true });
                } else if c == '-' || c == '_' {
                    effects.push(Effect::Volume { step: VolumeStep::Down, report: true });
                } else if c == 'q' || c == 'Q' {
                    self.ui.active_screen = ActiveScreen::Search;
                    self.ui.focus = Focus::SearchInput;
                } else if c == 's' {
                    effects.push(Effect::Stop);
                }
            },
            _ => {},
        }
        effects
    }

    /// A key in the search box (see `search_input_post`).
    pub fn handle_search_input(&mut self, key: Key, now_ms: u64) -> (effects: Vec<Effect>)
        ensures
            search_input_post(*old(self), *final(self), key, now_ms, effects@),
    {
        let mut effects: Vec<Effect> = Vec::new();
        match key.code {
            KeyCode::Tab => {
                self.ui.focus = Focus::SearchResults;
            },
            KeyCode::BackTab => {
                self.ui.focus = Focus::QueueList;
            },
            KeyCode::Enter => {
                if self.ui.search.search_query.as_str().unicode_len() > 0 {
                    let too_soon = match self.last_search_ms {
                        Some(l) => (if now_ms >= l { now_ms - l } else { 0 }) < 300,
                        None => false,
                    };
                    if !too_soon {
                        self.last_search_ms = Some(now_ms);
                        self.ui.search.is_searching = true;
                        self.ui.search.search_results.clear();
                        let query = self.ui.search.search_query.clone();
                        effects.push(Effect::Search(query, self.ui.config.default_search_limit));
                    }
                }
            },
            KeyCode::Backspace => {
                let _ = crate::text::pop_char(&mut self.ui.search.search_query);
            },
            KeyCode::Char(c) => {
                if self.ui.search.search_query.as_str().len() < 200 {
                    crate::text::push_char(&mut self.ui.search.search_query, c);
                }
            },
            _ => {},
        }
        effects
    }

    /// A playback key while a list has the focus (see
    /// `playback_controls_post`).
    pub fn handle_playback_controls(&mut self, key: Key, ctx: crate::session::KeyContext) -> (o: KeyOutcome)
        ensures
            playback_controls_post(*old(self), *final(self), key, ctx, KeyResult { exit: o.exit, effects: o.effects@ }),
    {
        match key.code {
            KeyCode::Char(c) => {
                if c == ' ' {
                    let mut effects: Vec<Effect> = Vec::new();
                    if ctx.player_state == PlayerState::Playing {
                        effects.push(Effect::Pause);
                    } else if ctx.player_state == PlayerState::Paused {
                        effects.push(Effect::Resume);
                    } else {
                        self.schedule_play_selected(ctx.now_ms);
                        self.push_save_if_needed(&mut effects);
                        assert(effects@ =~= save_effects(*self));
                    }
                    KeyOutcome { exit: false, effects }
                } else if c == 'q' || c == 'Q' {
                    KeyOutcome { exit: true, effects: Vec::new() }
                } else if c == 'v' {
                    let mut effects: Vec<Effect> = Vec::new();
                    effects.push(Effect::ToggleMode { report: false });
                    KeyOutcome { exit: false, effects }
                } else {
                    let effects = self.handle_player_key(key, ctx);
                    KeyOutcome { exit: false, effects }
                }
            },
            _ => KeyOutcome { exit: false, effects: Vec::new() },
        }
    }
}

} // verus!

verus! {

impl Session {
    fn queue_enter(&mut self, key: Key, now_ms: u64) -> (effects: Vec<Effect>)
        requires
            key.code == KeyCode::Enter,
        ensures
            queue_actions_post(*old(self), *final(self), key, now_ms, effects@),
    {
        let mut effects: Vec<Effect> = Vec::new();
        let f = self.ui.focus;
        if f == Focus::SearchResults {
            self.schedule_play_selected(now_ms);
            self.push_save_if_needed(&mut effects);
            assert(effects@ =~= save_effects(*self));
        } else if f == Focus::QueueList {
            self.play_selected_from_queue(now_ms);
        }
        effects
    }

    fn queue_delete(&mut self, key: Key, now_ms: u64) -> (effects: Vec<Effect>)
        requires
            key.code == KeyCode::Delete,
        ensures
            queue_actions_post(*old(self), *final(self), key, now_ms, effects@),
    {
        let mut effects: Vec<Effect> = Vec::new();
        let n = self.playlist.len();
        if self.ui.focus == Focus::QueueList && n > 0 {
            let idx = self.ui.queue.queue_selected;
            if idx < n {
                let id = self.playlist.playlist.songs[idx].id.clone();
                effects.push(Effect::RemoveCached(id));
                self.playlist.remove(idx);
                self.push_save_if_needed(&mut effects);
                assert(effects@.subrange(1, effects@.len() as int) =~= save_effects(*self));
            } else {
                self.playlist.remove(idx);
                self.push_save_if_needed(&mut effects);
                assert(effects@ =~= save_effects(*self));
            }
        }
        effects
    }

    fn queue_add_selected(&mut self, key: Key, now_ms: u64) -> (effects: Vec<Effect>)
        requires
            key.code == KeyCode::Char('a'),
        ensures
            queue_actions_post(*old(self), *final(self), key, now_ms, effects@),
    {
        let mut effects: Vec<Effect> = Vec::new();
        let idx = self.ui.search.selected_index;
        if self.ui.focus == Focus::SearchResults && idx < self.ui.search.search_results.len() {
            let song = self.ui.search.search_results[idx].clone();
            match self.playlist.playlist.position_of(song.id.as_str()) {
                Some(_) => {
                    self.notify_key_arg("notif_already_in_queue", song.title.as_str(),
                        NotificationLevel::Warning, now_ms);
                },
                None => {
                    let title = song.title.clone();
                    self.playlist.add(song);
                    self.push_save_if_needed(&mut effects);
                    assert(effects@ =~= save_effects(*self));
                    self.notify_key_arg("notif_added_to_queue", title.as_str(),
                        NotificationLevel::Success, now_ms);
                },
            }
        }
        effects
    }

    fn queue_pick_download(&mut self, key: Key, now_ms: u64) -> (effects: Vec<Effect>)
        requires
            key.code == KeyCode::Char('d'),
        ensures
            queue_actions_post(*old(self), *final(self), key, now_ms, effects@),
    {
        let f = self.ui.focus;
        if f == Focus::SearchResults {
            let i = self.ui.search.selected_index;
            self.ui.download.download_song = if i < self.ui.search.search_results.len() {
                Some(self.ui.search.search_results[i].clone())
            } else {
                None
            };
        } else if f == Focus::QueueList {
            let i = self.ui.queue.queue_selected;
            self.ui.download.download_song = if i < self.playlist.len() {
                Some(self.playlist.playlist.songs[i].clone())
            } else {
                None
            };
        }
        if self.ui.download.download_song.is_some() {
            self.ui.download.show_download_popup = true;
            self.ui.download.download_format = 0;
        }
        Vec::new()
    }

    fn queue_clear(&mut self, key: Key, now_ms: u64) -> (effects: Vec<Effect>)
        requires
            key.code == KeyCode::Char('c') || key.code == KeyCode::Char('C'),
            old(self).ui.focus == Focus::QueueList,
        ensures
            queue_actions_post(*old(self), *final(self), key, now_ms, effects@),
    {
        let mut effects: Vec<Effect> = Vec::new();
        let n = self.playlist.len();
        let mut i: usize = 0;
        while i < n
            invariant
                n == self.playlist.playlist.songs@.len(),
                *self == *old(self),
                i <= n,
                effects@.len() == i,
                forall|j: int| 0 <= j < i ==> (#[trigger] effects@[j] matches Effect::RemoveCached(id)
                    && id@ == self.playlist.playlist.songs@[j].id@),
            decreases n - i,
        {
            let id = self.playlist.playlist.songs[i].id.clone();
            effects.push(Effect::RemoveCached(id));
            i = i + 1;
        }
        let ghost before = effects@;
        self.playlist.clear();
        self.push_save_if_needed(&mut effects);
        assert(effects@.subrange(n as int, effects@.len() as int) =~= save_effects(*self));
        assert forall|j: int| 0 <= j < n implies (#[trigger] effects@[j] matches Effect::RemoveCached(id)
            && id@ == old(self).playlist.playlist.songs@[j].id@) by {
            assert(effects@[j] == before[j]);
        }
        effects
    }

    /// A queue key (see `queue_actions_post`).
    pub fn handle_queue_actions(&mut self, key: Key, now_ms: u64) -> (effects: Vec<Effect>)
        ensures
            queue_actions_post(*old(self), *final(self), key, now_ms, effects@),
    {
        match key.code {
            KeyCode::Enter => self.queue_enter(key, now_ms),
            KeyCode::Delete => self.queue_delete(key, now_ms),
            KeyCode::Char(c) => {
                if c == 'a' {
                    self.queue_add_selected(key, now_ms)
                } else if c == 'd' {
                    self.queue_pick_download(key, now_ms)
                } else if (c == 'c' || c == 'C') && self.ui.focus == Focus::QueueList {
                    self.queue_clear(key, now_ms)
                } else {
                    Vec::new()
                }
            },
            _ => Vec::new(),
        }
    }
}

} // verus!

verus! {

/// Which handler a key reaches on the search screen while a list has the
/// focus.
pub open spec fn list_key_kind(key: Key) -> u8 {
    match key.code {
        KeyCode::Char(c) => if (c == 'd' || c == 'u') && key.ctrl {
            0
        } else if c == 'j' || c == 'k' || c == 'g' || c == 'G' || c == 'h' {
            0
        } else if c == ' ' || c == 'n' || c == 'p' || c == 'r' || c == '=' || c == '+' || c == '-' || c == '_'
            || c == 'v' || c == 's' || c == 'q' || c == 'Q' {
            1
        } else if c == 'a' || c == 'd' || c == 'C' || c == 'c' {
            2
        } else {
            3
        },
        KeyCode::BackTab | KeyCode::Tab | KeyCode::Up | KeyCode::Down => 0,
        KeyCode::Enter | KeyCode::Delete => 2,
        _ => 3,
    }
}

/// What a key does on the search screen: `/` goes to an empty search box;
/// otherwise the search box or the focused list handles it.
pub open spec fn search_queue_post(s: Session, t: Session, key: Key, ctx: crate::session::KeyContext, o: KeyResult) -> bool {
    if key.code == KeyCode::Char('/') {
        &&& t.ui.search.search_query@.len() == 0
        &&& t == Session { ui: UiState {
            focus: Focus::SearchInput, active_screen: ActiveScreen::Search,
            search: SearchState { search_query: t.ui.search.search_query, ..s.ui.search }, ..s.ui }, ..s }
        &&& o.effects.len() == 0 && !o.exit
    } else if s.ui.focus == Focus::SearchInput {
        search_input_post(s, t, key, ctx.now_ms, o.effects) && !o.exit
    } else {
        let k = list_key_kind(key);
        if k == 0 {
            t == navigation_result(s, key) && o.effects.len() == 0 && !o.exit
        } else if k == 1 {
            playback_controls_post(s, t, key, ctx, o)
        } else if k == 2 {
            queue_actions_post(s, t, key, ctx.now_ms, o.effects) && !o.exit
        } else {
            t == s && o.effects.len() == 0 && !o.exit
        }
    }
}

/// Esc: the help, settings and player screens return to the search input;
/// on the search screen it first empties a non-empty search box, otherwise
/// moves the focus one panel back towards the search box.
pub open spec fn esc_result(s: Session) -> Session {
    if s.ui.active_screen != ActiveScreen::Search {
        to_search_input(s)
    } else if s.ui.focus == Focus::SearchInput && s.ui.search.search_query@.len() > 0 {
        s
    } else {
        with_focus(s, if s.ui.focus == Focus::QueueList { Focus::SearchResults } else { Focus::SearchInput })
    }
}

pub open spec fn esc_post(s: Session, t: Session) -> bool {
    if s.ui.active_screen == ActiveScreen::Search && s.ui.focus == Focus::SearchInput && s.ui.search.search_query@.len() > 0 {
        &&& t.ui.search.search_query@.len() == 0
        &&& t == Session { ui: UiState { search: SearchState { search_query: t.ui.search.search_query, ..s.ui.search }, ..s.ui }, ..s }
    } else {
        t == esc_result(s)
    }
}

/// Ctrl+C exits, unless a song is being fetched or a download is
/// scheduled: then the caller is asked to confirm.
pub open spec fn ctrl_c_busy(s: Session) -> bool {
    s.pending_play is Some || s.ui.download.download_pending is Some
}

/// What any key does, in order of precedence: the exit confirmation, the
/// upgrade popup, the keys refused during an upgrade, Ctrl+Q, Ctrl+C, the
/// download popup, Esc, then the handler of the screen in front.
pub open spec fn key_post(s: Session, t: Session, key: Key, ctx: crate::session::KeyContext, o: KeyResult) -> bool {
    let now = ctx.now_ms;
    if s.ui.show_exit_confirmation {
        match key.code {
            KeyCode::Char(c) => if c == 'y' || c == 'Y' {
                t == Session { ui: UiState { show_exit_confirmation: false, ..s.ui }, ..s } && o.exit && o.effects.len() == 0
            } else if c == 'n' || c == 'N' || c == 'q' || c == 'Q' {
                t == Session { ui: UiState { show_exit_confirmation: false, ..s.ui }, ..s } && !o.exit && o.effects.len() == 0
            } else {
                t == s && !o.exit && o.effects.len() == 0
            },
            KeyCode::Esc => t == Session { ui: UiState { show_exit_confirmation: false, ..s.ui }, ..s } && !o.exit && o.effects.len() == 0,
            _ => t == s && !o.exit && o.effects.len() == 0,
        }
    } else if s.ui.show_upgrade_popup {
        upgrade_key_post(s, t, key, o.effects, now) && !o.exit
    } else if s.ui.is_upgrading && (key.code == KeyCode::Char('q') || key.code == KeyCode::Char('Q')
        || (key.code == KeyCode::Char('c') && key.ctrl)) {
        notified_state(s, t, s.ui.spec_tr("upgrade_in_progress"@), NotificationLevel::Warning, now) && !o.exit && o.effects.len() == 0
    } else if key.code == KeyCode::Char('q') && key.ctrl {
        t == s && o.exit && o.effects.len() == 0
    } else if key.code == KeyCode::Char('c') && key.ctrl {
        if ctrl_c_busy(s) {
            t == s && !o.exit && o.effects == seq![Effect::ConfirmExit]
        } else {
            t == s && o.exit && o.effects.len() == 0
        }
    } else if s.ui.download.show_download_popup {
        download_popup_post(s, t, key) && !o.exit && o.effects.len() == 0
    } else if key.code == KeyCode::Esc {
        esc_post(s, t) && !o.exit && o.effects.len() == 0
    } else if s.ui.active_screen == ActiveScreen::Help {
        t == (if key.code == KeyCode::Char('q') || key.code == KeyCode::Char('Q') || key.code == KeyCode::Char('h') {
            with_screen(s, ActiveScreen::Search)
        } else {
            s
        }) && !o.exit && o.effects.len() == 0
    } else if s.ui.active_screen == ActiveScreen::Settings {
        settings_key_post(s, t, key, o.effects, now) && !o.exit
    } else if s.ui.active_screen == ActiveScreen::Player {
        player_key_post(s, t, key, ctx, o.effects) && !o.exit
    } else {
        search_queue_post(s, t, key, ctx, o)
    }
}

impl Session {
    /// A key on the search screen (see `search_queue_post`).
    pub fn handle_search_queue_key(&mut self, key: Key, ctx: crate::session::KeyContext) -> (o: KeyOutcome)
        ensures
            search_queue_post(*old(self), *final(self), key, ctx, KeyResult { exit: o.exit, effects: o.effects@ }),
    {
        if key.code == KeyCode::Char('/') {
            self.ui.focus = Focus::SearchInput;
            crate::text::clear_string(&mut self.ui.search.search_query);
            self.ui.active_screen = ActiveScreen::Search;
            return KeyOutcome { exit: false, effects: Vec::new() };
        }
        if self.ui.focus == Focus::SearchInput {
            let effects = self.handle_search_input(key, ctx.now_ms);
            return KeyOutcome { exit: false, effects };
        }
        let kind: u8 = match key.code {
            KeyCode::Char(c) => if (c == 'd' || c == 'u') && key.ctrl {
                0
            } else if c == 'j' || c == 'k' || c == 'g' || c == 'G' || c == 'h' {
                0
            } else if c == ' ' || c == 'n' || c == 'p' || c == 'r' || c == '=' || c == '+' || c == '-' || c == '_'
                || c == 'v' || c == 's' || c == 'q' || c == 'Q' {
                1
            } else if c == 'a' || c == 'd' || c == 'C' || c == 'c' {
                2
            } else {
                3
            },
            KeyCode::BackTab | KeyCode::Tab | KeyCode::Up | KeyCode::Down => 0,
            KeyCode::Enter | KeyCode::Delete => 2,
            _ => 3,
        };
        if kind == 0 {
            self.handle_list_navigation(key);
            KeyOutcome { exit: false, effects: Vec::new() }
        } else if kind == 1 {
            self.handle_playback_controls(key, ctx)
        } else if kind == 2 {
            let effects = self.handle_queue_actions(key, ctx.now_ms);
            KeyOutcome { exit: false, effects }
        } else {
            KeyOutcome { exit: false, effects: Vec::new() }
        }
    }

    fn handle_esc(&mut self)
        ensures
            esc_post(*old(self), *final(self)),
    {
        if self.ui.active_screen != ActiveScreen::Search {
            self.ui.active_screen = ActiveScreen::Search;
            self.ui.focus = Focus::SearchInput;
        } else if self.ui.focus == Focus::SearchInput && self.ui.search.search_query.as_str().unicode_len() > 0 {
            crate::text::clear_string(&mut self.ui.search.search_query);
        } else {
            self.ui.focus = if self.ui.focus == Focus::QueueList { Focus::SearchResults } else { Focus::SearchInput };
        }
    }

    /// A key on the help screen: q, Esc and h return to the search screen;
    /// every other key is ignored.
    pub fn handle_help_key(&mut self, key: Key)
        ensures
            *final(self) == (if key.code == KeyCode::Char('q') || key.code == KeyCode::Char('Q')
                || key.code == KeyCode::Char('h') || key.code == KeyCode::Esc {
                with_screen(*old(self), ActiveScreen::Search)
            } else {
                *old(self)
            }),
    {
        match key.code {
            KeyCode::Char(c) => {
                if c == 'q' || c == 'Q' || c == 'h' {
                    self.ui.active_screen = ActiveScreen::Search;
                }
            },
            KeyCode::Esc => {
                self.ui.active_screen = ActiveScreen::Search;
            },
            _ => {},
        }
    }

    /// React to a key (see `key_post`). `exit` asks the application to quit.
    pub fn handle_key(&mut self, key: Key, ctx: crate::session::KeyContext) -> (o: KeyOutcome)
        ensures
            key_post(*old(self), *final(self), key, ctx, KeyResult { exit: o.exit, effects: o.effects@ }),
    {
        if self.ui.show_exit_confirmation {
            match key.code {
                KeyCode::Char(c) => {
                    if c == 'y' || c == 'Y' {
                        self.ui.show_exit_confirmation = false;
                        return KeyOutcome { exit: true, effects: Vec::new() };
                    } else if c == 'n' || c == 'N' || c == 'q' || c == 'Q' {
                        self.ui.show_exit_confirmation = false;
                    }
                },
                KeyCode::Esc => {
                    self.ui.show_exit_confirmation = false;
                },
                _ => {},
            }
            return KeyOutcome { exit: false, effects: Vec::new() };
        }
        if self.ui.show_upgrade_popup {
            let effects = self.handle_upgrade_popup_key(key, ctx.now_ms);
            return KeyOutcome { exit: false, effects };
        }
        if self.ui.is_upgrading {
            let wants_exit = key.code == KeyCode::Char('q') || key.code == KeyCode::Char('Q')
                || (key.code == KeyCode::Char('c') && key.ctrl);
            if wants_exit {
                self.notify_key("upgrade_in_progress", NotificationLevel::Warning, ctx.now_ms);
                return KeyOutcome { exit: false, effects: Vec::new() };
            }
        }
        if key.code == KeyCode::Char('q') && key.ctrl {
            return KeyOutcome { exit: true, effects: Vec::new() };
        }
        if key.code == KeyCode::Char('c') && key.ctrl {
            if self.pending_play.is_some() || self.ui.download.download_pending.is_some() {
                let mut effects: Vec<Effect> = Vec::new();
                effects.push(Effect::ConfirmExit);
                return KeyOutcome { exit: false, effects };
            }
            return KeyOutcome { exit: true, effects: Vec::new() };
        }
        if self.ui.download.show_download_popup {
            self.handle_download_popup_key(key);
            return KeyOutcome { exit: false, effects: Vec::new() };
        }
        if key.code == KeyCode::Esc {
            self.handle_esc();
            return KeyOutcome { exit: false, effects: Vec::new() };
        }
        if self.ui.active_screen == ActiveScreen::Help {
            self.handle_help_key(key);
            return KeyOutcome { exit: false, effects: Vec::new() };
        }
        if self.ui.active_screen == ActiveScreen::Settings {
            let effects = self.handle_settings_key(key, ctx.now_ms);
            return KeyOutcome { exit: false, effects };
        }
        if self.ui.active_screen == ActiveScreen::Player {
            let effects = self.handle_player_key(key, ctx);
            return KeyOutcome { exit: false, effects };
        }
        self.handle_search_queue_key(key, ctx)
    }
}

} // verus!

verus! {

/// List navigation never moves a selection past the end of its list: a
/// search selection within the results (or zero when there are none) stays
/// so, and likewise the queue selection.
pub proof fn lemma_navigation_keeps_selection_in_bounds(s: Session, key: Key)
    requires
        s.ui.search.selected_index <= sat_sub(s.ui.search.search_results@.len() as usize, 1),
        s.ui.queue.queue_selected <= sat_sub(s.playlist.playlist.songs@.len() as usize, 1),
        s.ui.search.search_results@.len() <= usize::MAX,
        s.playlist.playlist.songs@.len() <= usize::MAX,
    ensures
        navigation_result(s, key).ui.search.selected_index
            <= sat_sub(s.ui.search.search_results@.len() as usize, 1),
        navigation_result(s, key).ui.queue.queue_selected
            <= sat_sub(s.playlist.playlist.songs@.len() as usize, 1),
        navigation_result(s, key).ui.search.search_results == s.ui.search.search_results,
        navigation_result(s, key).playlist == s.playlist,
{
}

/// While the exit confirmation is shown, only `y` or `Y` quits; `n`, `q`
/// and Esc close the confirmation, and nothing else changes the session or
/// asks for outside work.
pub proof fn lemma_exit_confirmation_decides_exit(s: Session, t: Session, key: Key,
    ctx: crate::session::KeyContext, o: KeyResult)
    requires
        s.ui.show_exit_confirmation,
        key_post(s, t, key, ctx, o),
    ensures
        o.exit <==> (key.code == KeyCode::Char('y') || key.code == KeyCode::Char('Y')),
        o.effects.len() == 0,
        t == s || t == (Session { ui: UiState { show_exit_confirmation: false, ..s.ui }, ..s }),
{
}

/// With no confirmation, upgrade popup or running upgrade in the way,
/// Ctrl+Q quits at once and leaves the session as it was.
pub proof fn lemma_ctrl_q_quits(s: Session, t: Session, ctx: crate::session::KeyContext, o: KeyResult)
    requires
        !s.ui.show_exit_confirmation,
        !s.ui.show_upgrade_popup,
        !s.ui.is_upgrading,
        key_post(s, t, Key { code: KeyCode::Char('q'), ctrl: true }, ctx, o),
    ensures
        o.exit,
        t == s,
        o.effects.len() == 0,
{
}

/// No key quits from the help screen except Ctrl+Q, and Ctrl+C when
/// nothing is being fetched.
pub proof fn lemma_help_screen_does_not_quit(s: Session, t: Session, key: Key,
    ctx: crate::session::KeyContext, o: KeyResult)
    requires
        s.ui.active_screen == ActiveScreen::Help,
        !s.ui.show_exit_confirmation,
        key_post(s, t, key, ctx, o),
        !(key.ctrl && (key.code == KeyCode::Char('q') || key.code == KeyCode::Char('c'))),
    ensures
        !o.exit,
{
}

/// While an upgrade runs, `q`, `Q` and Ctrl+C never quit.
pub proof fn lemma_upgrade_blocks_quit(s: Session, t: Session, key: Key,
    ctx: crate::session::KeyContext, o: KeyResult)
    requires
        s.ui.is_upgrading,
        !s.ui.show_exit_confirmation,
        key_post(s, t, key, ctx, o),
        key.code == KeyCode::Char('q') || key.code == KeyCode::Char('Q')
            || (key.code == KeyCode::Char('c') && key.ctrl),
    ensures
        !o.exit,
{
}

/// Ctrl+C while a song is being fetched or a download waits asks for
/// confirmation instead of quitting.
pub proof fn lemma_ctrl_c_confirms_when_busy(s: Session, t: Session,
    ctx: crate::session::KeyContext, o: KeyResult)
    requires
        !s.ui.show_exit_confirmation,
        !s.ui.show_upgrade_popup,
        !s.ui.is_upgrading,
        ctrl_c_busy(s),
        key_post(s, t, Key { code: KeyCode::Char('c'), ctrl: true }, ctx, o),
    ensures
        !o.exit,
        t == s,
        o.effects == seq![Effect::ConfirmExit],
{
}

/// Law: in the upgrade popup an upgrade starts only on an explicit yes:
/// Enter with the Yes button chosen, or `y`/`Y`. Enter with the No button
/// chosen asks for no work, leaves the running-upgrade flag as it was, and
/// closes the popup with its offer dropped.
pub proof fn lemma_upgrade_starts_only_on_yes(s: Session, t: Session, key: Key, effects: Seq<Effect>, now_ms: u64)
    requires
        upgrade_key_post(s, t, key, effects, now_ms),
    ensures
        (exists|i: int| 0 <= i < effects.len() && effects[i] is StartUpgrade) || t.ui.is_upgrading != s.ui.is_upgrading
            ==> (key.code == KeyCode::Enter && s.ui.upgrade_selection == UpgradeChoice::Yes)
                || key.code == KeyCode::Char('y') || key.code == KeyCode::Char('Y'),
        key.code == KeyCode::Enter && s.ui.upgrade_selection == UpgradeChoice::No ==> {
            &&& effects.len() == 0
            &&& t.ui.is_upgrading == s.ui.is_upgrading
            &&& !t.ui.show_upgrade_popup
            &&& t.ui.pending_upgrade is None
        },
{
}

/// Law: on the player screen, and on a focused list, `+` and `=` always ask
/// for the volume to go one step up and `-` and `_` one step down, and
/// nothing else changes; no key asks for both.
pub proof fn lemma_volume_keys(s: Session, t: Session, key: Key, ctx: crate::session::KeyContext,
    effects: Seq<Effect>, o: KeyResult)
    ensures
        player_key_post(s, t, key, ctx, effects) && (key.code == KeyCode::Char('+') || key.code == KeyCode::Char('='))
            ==> t == s && effects == seq![Effect::Volume { step: VolumeStep::Up, report: true }],
        player_key_post(s, t, key, ctx, effects) && (key.code == KeyCode::Char('-') || key.code == KeyCode::Char('_'))
            ==> t == s && effects == seq![Effect::Volume { step: VolumeStep::Down, report: true }],
        playback_controls_post(s, t, key, ctx, o) && (key.code == KeyCode::Char('+') || key.code == KeyCode::Char('='))
            ==> t == s && !o.exit && o.effects == seq![Effect::Volume { step: VolumeStep::Up, report: true }],
        playback_controls_post(s, t, key, ctx, o) && (key.code == KeyCode::Char('-') || key.code == KeyCode::Char('_'))
            ==> t == s && !o.exit && o.effects == seq![Effect::Volume { step: VolumeStep::Down, report: true }],
        player_key_post(s, t, key, ctx, effects) ==> !(
            (exists|i: int| 0 <= i < effects.len() && effects[i] == Effect::Volume { step: VolumeStep::Up, report: true })
            && (exists|i: int| 0 <= i < effects.len() && effects[i] == Effect::Volume { step: VolumeStep::Down, report: true })),
{
}

/// Law: Enter on the language row of the settings switches the language:
/// the new one differs from the old, is "en" after "es" and "es" after
/// anything else, and its texts are loaded; the row keeps the focus, so a
/// second Enter brings back an "en" or "es" language.
pub proof fn lemma_language_row_toggles(s: Session, t: Session, u: Session, e1: Seq<Effect>, e2: Seq<Effect>,
    now1: u64, now2: u64)
    requires
        s.ui.settings.settings_focus == 5,
        settings_enter_post(s, t, e1, now1),
    ensures
        t.ui.config.language@ != s.ui.config.language@,
        s.ui.config.language@ == "es"@ ==> t.ui.config.language@ == "en"@,
        s.ui.config.language@ != "es"@ ==> t.ui.config.language@ == "es"@,
        t.ui.config.translations.spec_language() == t.ui.config.language@,
        t.ui.settings.settings_focus == 5,
        e1.len() == 0,
        settings_enter_post(t, u, e2, now2) && (s.ui.config.language@ == "en"@ || s.ui.config.language@ == "es"@)
            ==> u.ui.config.language@ == s.ui.config.language@,
{
    reveal_strlit("en");
    reveal_strlit("es");
    assert("en"@[1] != "es"@[1]);
}

/// Law: Tab moves the focus through all three panels of the search screen
/// (input, results, queue, and back to the input), Shift+Tab goes the same
/// round backwards, and each undoes the other. In list navigation every
/// Tab changes the focus, three of them bring it back, and Shift+Tab after
/// Tab restores the session.
pub proof fn lemma_focus_cycle(f: Focus, s: Session, tab: Key, back: Key)
    requires
        tab.code == KeyCode::Tab,
        back.code == KeyCode::BackTab,
    ensures
        navigation_result(s, tab).ui.focus != s.ui.focus,
        navigation_result(navigation_result(navigation_result(s, tab), tab), tab).ui.focus == s.ui.focus,
        navigation_result(navigation_result(s, tab), tab).ui.focus != s.ui.focus,
        navigation_result(navigation_result(s, tab), back) == s,
        navigation_result(navigation_result(s, back), tab) == s,
        focus_forward(f) != f,
        focus_forward(focus_forward(f)) != f,
        focus_forward(focus_forward(focus_forward(f))) == f,
        focus_forward(focus_backward(f)) == f,
        focus_backward(focus_forward(f)) == f,
        focus_forward(Focus::SearchInput) == Focus::SearchResults,
{
    assert(navigation_result(navigation_result(s, tab), back) =~= s);
    assert(navigation_result(navigation_result(s, back), tab) =~= s);
}

} // verus!
