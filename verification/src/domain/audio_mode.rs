use vstd::prelude::*;

use crate::domain::error::DomainError;

verus! {

/// Playback backend: audio through the local sink, or video through mpv.
#[derive(Clone, Copy, Debug, PartialEq, Eq, Structural)]
pub enum AudioMode {
    Audio,
    Video,
}

impl AudioMode {
    /// Convert a `bool` (from config) to `AudioMode`.
    /// `true` → `Video`, `false` → `Audio`.
    pub fn from_bool(v: bool) -> (m: AudioMode)
        ensures
            m == (if v { AudioMode::Video } else { AudioMode::Audio }),
    {
        if v {
            AudioMode::Video
        } else {
            AudioMode::Audio
        }
    }
}

impl AudioMode {
    /// The other mode.
    pub open spec fn spec_other(self) -> AudioMode {
        match self {
            AudioMode::Audio => AudioMode::Video,
            AudioMode::Video => AudioMode::Audio,
        }
    }

    /// The mode a toggle switches to: the other one; video only when mpv is
    /// installed (`mpv_installed` is whether running it succeeded).
    pub fn toggled(self, mpv_installed: bool) -> (r: Result<AudioMode, DomainError>)
        ensures
            self.spec_other() == AudioMode::Video && !mpv_installed ==> (r matches Err(DomainError::Player(m))
                && m@ == "mpv is not installed. Install mpv (https://mpv.io) to use video mode."@),
            !(self.spec_other() == AudioMode::Video && !mpv_installed) ==> r == Ok::<AudioMode, DomainError>(self.spec_other()),
    {
        let new_mode = match self {
            AudioMode::Audio => AudioMode::Video,
            AudioMode::Video => AudioMode::Audio,
        };
        if new_mode == AudioMode::Video && !mpv_installed {
            return Err(DomainError::Player(crate::text::owned(
                "mpv is not installed. Install mpv (https://mpv.io) to use video mode.")));
        }
        Ok(new_mode)
    }
}

impl AudioMode {
    /// The mode to start in: the configured one (`video` from the
    /// settings), except that video falls back to audio when mpv is not
    /// installed.
    pub fn at_startup(video: bool, mpv_installed: bool) -> (m: AudioMode)
        ensures
            m == (if video && mpv_installed { AudioMode::Video } else { AudioMode::Audio }),
    {
        if video && !mpv_installed {
            AudioMode::Audio
        } else {
            AudioMode::from_bool(video)
        }
    }
}

/// Toggling twice comes back to the starting mode.
pub proof fn lemma_toggle_twice_returns(m: AudioMode)
    ensures
        m.spec_other().spec_other() == m,
        m.spec_other() != m,
{
}

} // verus!
