use vstd::prelude::*;

use crate::domain::loading_animation::LoadingAnimation;
use crate::domain::media::Song;
use super::i18n::Translations;
use super::notification::{Notification, NotificationLevel, NotificationState, pushed, lifetime_ms, alive_at};
use super::theme::{Theme, spec_theme, spec_parse_hex, splits_a_char};

verus! {

/// The screen in front.
#[derive(Clone, Copy, Debug, PartialEq, Eq, Structural)]
pub enum ActiveScreen {
    Search,
    Player,
    Help,
    Settings,
}

/// The panel of the search screen that receives keys.
#[derive(Clone, Copy, Debug, PartialEq, Eq, Structural)]
pub enum Focus {
    SearchInput,
    SearchResults,
    QueueList,
}

/// The button selected in the upgrade popup.
#[derive(Clone, Copy, Debug, PartialEq, Eq, Structural)]
pub enum UpgradeChoice {
    Yes,
    No,
}

/// The search box and its results.
#[derive(Debug)]
pub struct SearchState {
    pub search_query: String,
    pub search_results: Vec<Song>,
    pub is_searching: bool,
    pub selected_index: usize,
    pub scroll_offset: usize,
}

impl SearchState {
    pub fn new() -> (s: SearchState)
        ensures
            s.search_query@ == Seq::<char>::empty(),
            s.search_results@.len() == 0,
            !s.is_searching,
            s.selected_index == 0,
            s.scroll_offset == 0,
    {
        SearchState {
            search_query: String::new(),
            search_results: Vec::new(),
            is_searching: false,
            selected_index: 0,
            scroll_offset: 0,
        }
    }
}

/// The selection in the queue panel.
#[derive(Clone, Copy, Debug)]
pub struct QueueViewState {
    pub queue_selected: usize,
    pub scroll_offset: usize,
}

impl QueueViewState {
    pub fn new() -> (s: QueueViewState)
        ensures
            s.queue_selected == 0,
            s.scroll_offset == 0,
    {
        QueueViewState { queue_selected: 0, scroll_offset: 0 }
    }
}

/// The selected row of the settings screen.
#[derive(Clone, Copy, Debug)]
pub struct SettingsState {
    pub settings_focus: usize,
}

impl SettingsState {
    pub fn new() -> (s: SettingsState)
        ensures
            s.settings_focus == 0,
    {
        SettingsState { settings_focus: 0 }
    }
}

/// The download-format popup and the download it schedules
/// (song, target directory, audio format).
#[derive(Debug)]
pub struct DownloadPopupState {
    pub show_download_popup: bool,
    pub download_format: usize,
    pub download_song: Option<Song>,
    pub download_pending: Option<(Song, String, String)>,
}

impl DownloadPopupState {
    pub fn new() -> (s: DownloadPopupState)
        ensures
            !s.show_download_popup,
            s.download_format == 0,
            s.download_song is None,
            s.download_pending is None,
    {
        DownloadPopupState {
            show_download_popup: false,
            download_format: 0,
            download_song: None,
            download_pending: None,
        }
    }
}

/// The spinner frames, one per tick.
pub open spec fn spinner_frames() -> Seq<Seq<char>> {
    seq!["⠋"@, "⠙"@, "⠹"@, "⠸"@, "⠼"@, "⠴"@, "⠦"@, "⠧"@, "⠇"@, "⠏"@]
}

/// What the player shows: the song being played or loaded, the loading
/// message, and the spinner.
#[derive(Debug)]
pub struct PlayerViewState {
    pub current_song: Option<Song>,
    pub loading_status: Option<String>,
    pub spinner_frame: usize,
}

impl PlayerViewState {
    pub fn new() -> (s: PlayerViewState)
        ensures
            s.current_song is None,
            s.loading_status is None,
            s.spinner_frame == 0,
    {
        PlayerViewState { current_song: None, loading_status: None, spinner_frame: 0 }
    }

    /// Advance the spinner by one frame (wrapping).
    pub fn tick_spinner(&mut self)
        ensures
            final(self).spinner_frame == crate::domain::media::bump(old(self).spinner_frame),
            final(self).current_song == old(self).current_song,
            final(self).loading_status == old(self).loading_status,
    {
        self.spinner_frame = if self.spinner_frame == usize::MAX { 0 } else { self.spinner_frame + 1 };
    }

    /// The spinner glyph of the current frame.
    pub fn spinner_char(&self) -> (s: &'static str)
        ensures
            s@ == spinner_frames()[(self.spinner_frame % 10) as int],
    {
        let k = self.spinner_frame % 10;
        if k == 0 { "⠋" }
        else if k == 1 { "⠙" }
        else if k == 2 { "⠹" }
        else if k == 3 { "⠸" }
        else if k == 4 { "⠼" }
        else if k == 5 { "⠴" }
        else if k == 6 { "⠦" }
        else if k == 7 { "⠧" }
        else if k == 8 { "⠇" }
        else { "⠏" }
    }
}

/// The user's configuration as the interface edits it.
#[derive(Debug)]
pub struct ConfigState {
    pub theme_name: String,
    pub accent_color: String,
    pub language: String,
    pub translations: Translations,
    pub cached_theme: Option<Theme>,
    pub default_search_limit: usize,
    pub download_path: String,
    pub loading_animation: LoadingAnimation,
}

impl ConfigState {
    pub fn new(
        theme_name: String,
        accent_color: String,
        language: String,
        translations: Translations,
        default_search_limit: usize,
        download_path: String,
        loading_animation: LoadingAnimation,
    ) -> (c: ConfigState)
        ensures
            c.theme_name == theme_name,
            c.accent_color == accent_color,
            c.language == language,
            c.translations == translations,
            c.cached_theme is None,
            c.default_search_limit == default_search_limit,
            c.download_path == download_path,
            c.loading_animation == loading_animation,
    {
        ConfigState {
            theme_name,
            accent_color,
            language,
            translations,
            cached_theme: None,
            default_search_limit,
            download_path,
            loading_animation,
        }
    }

    /// The text for `key` in the configured language.
    pub fn tr(&self, key: &str) -> (s: String)
        ensures
            s@ == self.translations.spec_t(key@),
    {
        self.translations.t(key)
    }

    /// The theme of the configuration; computed once and kept until
    /// `invalidate_theme`.
    pub fn get_or_create_theme(&mut self) -> (t: Theme)
        requires
            !splits_a_char(old(self).accent_color@),
        ensures
            old(self).cached_theme matches Some(c) ==> t == c && *final(self) == *old(self),
            old(self).cached_theme is None ==> t == spec_theme(old(self).theme_name@, spec_parse_hex(old(self).accent_color@))
                && final(self).cached_theme == Some(t)
                && *final(self) == (ConfigState { cached_theme: Some(t), ..*old(self) }),
    {
        if let Some(theme) = self.cached_theme {
            return theme;
        }
        let theme = Theme::from_settings(self.theme_name.as_str(), self.accent_color.as_str());
        self.cached_theme = Some(theme);
        theme
    }

    /// Forget the computed theme (after the theme or accent changed).
    pub fn invalidate_theme(&mut self)
        ensures
            *final(self) == (ConfigState { cached_theme: None, ..*old(self) }),
    {
        self.cached_theme = None;
    }
}

impl Default for ConfigState {
    /// Dark theme, cyan accent, Spanish texts, ten search results.
    fn default() -> (c: ConfigState)
        ensures
            c.theme_name@ == "dark"@,
            c.accent_color@ == "#00ffff"@,
            c.language@ == "es"@,
            c.translations.spec_language() == "es"@,
            c.translations.spec_entries() == super::i18n::loaded_entries("es"@),
            c.cached_theme is None,
            c.default_search_limit == 10,
            c.download_path@ == Seq::<char>::empty(),
            c.loading_animation == LoadingAnimation,
    {
        ConfigState {
            theme_name: crate::text::owned("dark"),
            accent_color: crate::text::owned("#00ffff"),
            language: crate::text::owned("es"),
            translations: Translations::load("es"),
            cached_theme: None,
            default_search_limit: 10,
            download_path: String::new(),
            loading_animation: LoadingAnimation,
        }
    }
}

/// Everything the interface shows besides the queue and the player.
#[derive(Debug)]
pub struct UiState {
    pub active_screen: ActiveScreen,
    pub focus: Focus,
    pub search: SearchState,
    pub config: ConfigState,
    pub settings: SettingsState,
    pub download: DownloadPopupState,
    pub notifications: NotificationState,
    pub show_exit_confirmation: bool,
    pub show_upgrade_popup: bool,
    /// (version tag, download URL) of an available upgrade.
    pub pending_upgrade: Option<(String, String)>,
    pub is_upgrading: bool,
    pub upgrade_selection: UpgradeChoice,
    pub player: PlayerViewState,
    pub queue: QueueViewState,
}

impl UiState {
    /// The text for `key` in the configured language.
    pub open spec fn spec_tr(&self, key: Seq<char>) -> Seq<char> {
        self.config.translations.spec_t(key)
    }

    pub fn tr(&self, key: &str) -> (s: String)
        ensures
            s@ == self.spec_tr(key@),
    {
        self.config.tr(key)
    }

    pub fn tick_spinner(&mut self)
        ensures
            final(self).player.spinner_frame == crate::domain::media::bump(old(self).player.spinner_frame),
            final(self).player.current_song == old(self).player.current_song,
            final(self).player.loading_status == old(self).player.loading_status,
    {
        self.player.tick_spinner();
    }

    pub fn spinner_char(&self) -> (s: &'static str)
        ensures
            s@ == spinner_frames()[(self.player.spinner_frame % 10) as int],
    {
        self.player.spinner_char()
    }

    /// Show a message created at `now_ms`.
    pub fn push_notification_at(&mut self, message: String, level: NotificationLevel, now_ms: u64)
        ensures
            *final(self) == (UiState { notifications: final(self).notifications, ..*old(self) }),
            final(self).notifications@ == pushed(old(self).notifications@, Notification {
                message, level, timestamp_ms: now_ms, duration_ms: lifetime_ms(level) }),
    {
        self.notifications.push_at(message, level, now_ms);
    }

    /// Show a message created now.
    pub fn push_notification(&mut self, message: String, level: NotificationLevel)
        ensures
            *final(self) == (UiState { notifications: final(self).notifications, ..*old(self) }),
            final(self).notifications@ == pushed(old(self).notifications@, final(self).notifications@.last()),
            final(self).notifications@.last().message == message,
            final(self).notifications@.last().level == level,
    {
        self.notifications.push(message, level);
    }

    /// Drop the notifications that have expired by now; nothing else changes.
    pub fn dismiss_old_notifications(&mut self)
        ensures
            *final(self) == (UiState { notifications: final(self).notifications, ..*old(self) }),
            exists|t: u64| final(self).notifications@ == #[trigger] alive_at(old(self).notifications@, t),
    {
        self.notifications.dismiss_old();
    }

    /// The notifications still alive now, in order.
    pub fn active_notifications(&self) -> (v: Vec<Notification>)
        ensures
            exists|t: u64| v@ == #[trigger] alive_at(self.notifications@, t),
    {
        self.notifications.active()
    }

    pub fn get_or_create_theme(&mut self) -> (t: Theme)
        requires
            !splits_a_char(old(self).config.accent_color@),
        ensures
            old(self).config.cached_theme matches Some(c) ==> t == c,
            old(self).config.cached_theme is None ==> t == spec_theme(
                old(self).config.theme_name@, spec_parse_hex(old(self).config.accent_color@)),
            *final(self) == (UiState { config: ConfigState { cached_theme: Some(t), ..old(self).config }, ..*old(self) }),
    {
        self.config.get_or_create_theme()
    }

    pub fn invalidate_theme(&mut self)
        ensures
            *final(self) == (UiState { config: ConfigState { cached_theme: None, ..old(self).config }, ..*old(self) }),
    {
        self.config.invalidate_theme();
    }
}

impl Default for UiState {
    /// The search screen with the input focused and nothing shown.
    fn default() -> (u: UiState)
        ensures
            u.active_screen == ActiveScreen::Search,
            u.focus == Focus::SearchInput,
            u.search.search_query@ == Seq::<char>::empty(),
            u.search.search_results@.len() == 0,
            !u.search.is_searching,
            u.search.selected_index == 0,
            u.search.scroll_offset == 0,
            u.config.theme_name@ == "dark"@,
            u.config.accent_color@ == "#00ffff"@,
            u.config.language@ == "es"@,
            u.config.translations.spec_language() == "es"@,
            u.config.translations.spec_entries() == super::i18n::loaded_entries("es"@),
            u.config.cached_theme is None,
            u.config.default_search_limit == 10,
            u.config.download_path@ == Seq::<char>::empty(),
            u.config.loading_animation == LoadingAnimation,
            u.notifications@.len() == 0,
            !u.show_exit_confirmation,
            !u.show_upgrade_popup,
            u.pending_upgrade is None,
            !u.is_upgrading,
            u.upgrade_selection == UpgradeChoice::Yes,
            u.player.current_song is None,
            u.player.loading_status is None,
            u.player.spinner_frame == 0,
            u.queue.queue_selected == 0,
            u.queue.scroll_offset == 0,
            u.settings.settings_focus == 0,
            !u.download.show_download_popup,
            u.download.download_format == 0,
            u.download.download_song is None,
            u.download.download_pending is None,
    {
        UiState {
            active_screen: ActiveScreen::Search,
            focus: Focus::SearchInput,
            search: SearchState::new(),
            config: ConfigState::default(),
            settings: SettingsState::new(),
            download: DownloadPopupState::new(),
            notifications: NotificationState::new(),
            show_exit_confirmation: false,
            show_upgrade_popup: false,
            pending_upgrade: None,
            is_upgrading: false,
            upgrade_selection: UpgradeChoice::Yes,
            player: PlayerViewState::new(),
            queue: QueueViewState::new(),
        }
    }
}

} // verus!
