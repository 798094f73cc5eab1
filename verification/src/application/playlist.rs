use vstd::prelude::*;

use crate::domain::media::{Playlist, RepeatMode, Song, bump, index_after_remove, next_index, next_moves, previous_index, previous_moves};

verus! {

/// The queue as the interface uses it.
#[derive(Debug)]
pub struct PlaylistUseCase {
    pub playlist: Playlist,
}

/// The repeat mode a saved setting restores: "All" or "One"; "None" or an
/// unreadable name restores nothing, so a default setting never resets the
/// mode the saved queue has.
pub open spec fn restored_repeat_mode(saved: Seq<char>) -> Option<RepeatMode> {
    if saved == RepeatMode::All.spec_as_str() {
        Some(RepeatMode::All)
    } else if saved == RepeatMode::One.spec_as_str() {
        Some(RepeatMode::One)
    } else {
        None
    }
}

impl PlaylistUseCase {
    pub fn new() -> (u: PlaylistUseCase)
        ensures
            u.playlist.songs@.len() == 0,
            u.playlist.current_index == 0,
            u.playlist.repeat_mode == RepeatMode::Off,
            u.playlist.version == 0,
            u.playlist.name@ == "Queue"@,
    {
        PlaylistUseCase { playlist: Playlist::new() }
    }

    pub fn playlist(&self) -> (p: &Playlist)
        ensures
            *p == self.playlist,
    {
        &self.playlist
    }

    /// Replace the queue with one loaded from storage.
    pub fn load(&mut self, playlist: Playlist)
        ensures
            final(self).playlist == playlist,
    {
        self.playlist = playlist;
    }

    pub fn add(&mut self, song: Song)
        ensures
            final(self).playlist.songs@ == old(self).playlist.songs@.push(song),
            final(self).playlist == (Playlist { songs: final(self).playlist.songs, version: bump(old(self).playlist.version), ..old(self).playlist }),
    {
        self.playlist.add(song);
    }

    pub fn remove(&mut self, index: usize)
        ensures
            index >= old(self).playlist.songs@.len() ==> *final(self) == *old(self),
            index < old(self).playlist.songs@.len() ==> {
                &&& final(self).playlist.songs@ == old(self).playlist.songs@.remove(index as int)
                &&& final(self).playlist == (Playlist {
                    songs: final(self).playlist.songs,
                    current_index: index_after_remove(
                        old(self).playlist.current_index as int, index as int, old(self).playlist.songs@.len() as int) as usize,
                    version: bump(old(self).playlist.version),
                    ..old(self).playlist })
            },
    {
        self.playlist.remove(index);
    }

    pub fn clear(&mut self)
        ensures
            final(self).playlist.songs@.len() == 0,
            final(self).playlist == (Playlist { songs: final(self).playlist.songs, current_index: 0, version: bump(old(self).playlist.version), ..old(self).playlist }),
    {
        self.playlist.clear();
    }

    pub fn next(&mut self) -> (r: Option<Song>)
        ensures
            final(self).playlist == (Playlist { current_index: next_index(
                old(self).playlist.songs@.len() as int, old(self).playlist.current_index, old(self).playlist.repeat_mode), ..old(self).playlist }),
            r is Some <==> next_moves(
                old(self).playlist.songs@.len() as int, old(self).playlist.current_index, old(self).playlist.repeat_mode),
            r is Some ==> r == final(self).playlist.spec_current(),
    {
        self.playlist.next()
    }

    pub fn previous(&mut self) -> (r: Option<Song>)
        ensures
            final(self).playlist == (Playlist { current_index: previous_index(
                old(self).playlist.songs@.len() as int, old(self).playlist.current_index, old(self).playlist.repeat_mode), ..old(self).playlist }),
            r is Some <==> previous_moves(
                old(self).playlist.songs@.len() as int, old(self).playlist.current_index, old(self).playlist.repeat_mode),
            r is Some ==> r == final(self).playlist.spec_current(),
    {
        self.playlist.previous()
    }

    pub fn has_current_song(&self) -> (b: bool)
        ensures
            b == self.playlist.spec_current() is Some,
    {
        self.playlist.current_song().is_some()
    }

    pub fn current_song_cloned(&self) -> (r: Option<Song>)
        ensures
            r == self.playlist.spec_current(),
    {
        match self.playlist.current_song() {
            Some(s) => Some(s.clone()),
            None => None,
        }
    }

    pub fn set_current_index(&mut self, index: usize)
        ensures
            final(self).playlist == (Playlist { current_index: if index < old(self).playlist.songs@.len() {
                index
            } else {
                old(self).playlist.current_index
            }, ..old(self).playlist }),
    {
        self.playlist.set_current_index(index);
    }

    pub fn len(&self) -> (n: usize)
        ensures
            n == self.playlist.songs@.len(),
    {
        self.playlist.len()
    }

    pub fn songs(&self) -> (s: &[Song])
        ensures
            s@ == self.playlist.songs@,
    {
        self.playlist.songs()
    }

    pub fn repeat_mode(&self) -> (m: RepeatMode)
        ensures
            m == self.playlist.repeat_mode,
    {
        self.playlist.repeat_mode
    }

    /// Set the repeat mode; returns the mode now in force.
    pub fn set_repeat_mode(&mut self, mode: RepeatMode) -> (m: RepeatMode)
        ensures
            m == mode,
            final(self).playlist == (Playlist { repeat_mode: mode, ..old(self).playlist }),
    {
        self.playlist.repeat_mode = mode;
        mode
    }

    /// Restore the repeat mode saved in the settings (see
    /// `restored_repeat_mode`).
    pub fn restore_repeat_mode(&mut self, saved: &str)
        ensures
            match restored_repeat_mode(saved@) {
                Some(m) => final(self).playlist == (Playlist { repeat_mode: m, ..old(self).playlist }),
                None => *final(self) == *old(self),
            },
    {
        proof {
            crate::domain::media::lemma_repeat_mode_names_distinct();
        }
        match RepeatMode::parse(saved) {
            Some(m) => {
                if m != RepeatMode::Off {
                    self.set_repeat_mode(m);
                }
            },
            None => {},
        }
    }

    /// Advance the repeat mode to the next in its cycle; returns the new mode.
    pub fn cycle_repeat_mode(&mut self) -> (m: RepeatMode)
        ensures
            m == old(self).playlist.repeat_mode.spec_next(),
            final(self).playlist == (Playlist { repeat_mode: m, ..old(self).playlist }),
    {
        self.playlist.repeat_mode = self.playlist.repeat_mode.next();
        self.playlist.repeat_mode
    }
}

} // verus!
