use vstd::prelude::*;

verus! {

/// How the queue behaves when it runs past its ends.
#[derive(Clone, Copy, Debug, PartialEq, Eq, Structural)]
pub enum RepeatMode {
    Off,
    All,
    One,
}

impl RepeatMode {
    pub open spec fn spec_next(self) -> RepeatMode {
        match self {
            RepeatMode::Off => RepeatMode::All,
            RepeatMode::All => RepeatMode::One,
            RepeatMode::One => RepeatMode::Off,
        }
    }

    /// The next mode in the cycle Off → All → One → Off.
    pub fn next(self) -> (r: RepeatMode)
        ensures
            r == self.spec_next(),
    {
        match self {
            RepeatMode::Off => RepeatMode::All,
            RepeatMode::All => RepeatMode::One,
            RepeatMode::One => RepeatMode::Off,
        }
    }
}

} // verus!

verus! {

impl RepeatMode {
    pub open spec fn spec_as_str(self) -> Seq<char> {
        match self {
            RepeatMode::Off => "None"@,
            RepeatMode::All => "All"@,
            RepeatMode::One => "One"@,
        }
    }

    /// The persisted name of the mode ("None", "All", "One").
    pub fn as_str(&self) -> (s: &'static str)
        ensures
            s@ == self.spec_as_str(),
    {
        proof {
            reveal_strlit("None");
            reveal_strlit("All");
            reveal_strlit("One");
        }
        match self {
            RepeatMode::Off => "None",
            RepeatMode::All => "All",
            RepeatMode::One => "One",
        }
    }

    /// Parse a persisted mode name; anything but the three names is refused.
    pub fn parse(s: &str) -> (r: Option<RepeatMode>)
        ensures
            r matches Some(m) ==> m.spec_as_str() == s@,
            r is None <==> (s@ != "None"@ && s@ != "All"@ && s@ != "One"@),
    {
        proof {
            reveal_strlit("None");
            reveal_strlit("All");
            reveal_strlit("One");
        }
        if crate::text::str_eq(s, "None") {
            Some(RepeatMode::Off)
        } else if crate::text::str_eq(s, "All") {
            Some(RepeatMode::All)
        } else if crate::text::str_eq(s, "One") {
            Some(RepeatMode::One)
        } else {
            None
        }
    }
}

/// Each repeat mode has its own persisted name, so reading a saved name
/// gives back the mode that was saved.
pub proof fn lemma_repeat_mode_names_distinct()
    ensures
        forall|a: RepeatMode, b: RepeatMode| a.spec_as_str() == b.spec_as_str() ==> a == b,
{
    reveal_strlit("None");
    reveal_strlit("All");
    reveal_strlit("One");
    assert("None"@.len() != "All"@.len());
    assert("None"@.len() != "One"@.len());
    assert("All"@[0] != "One"@[0]);
}

impl Default for RepeatMode {
    fn default() -> (r: RepeatMode)
        ensures
            r == RepeatMode::Off,
    {
        RepeatMode::Off
    }
}

impl core::str::FromStr for RepeatMode {
    type Err = ();

    fn from_str(s: &str) -> (r: Result<RepeatMode, ()>)
        ensures
            r matches Ok(m) ==> m.spec_as_str() == s@,
            r is Err <==> (s@ != "None"@ && s@ != "All"@ && s@ != "One"@),
    {
        match RepeatMode::parse(s) {
            Some(m) => Ok(m),
            None => Err(()),
        }
    }
}

/// A track found on YouTube. The duration is kept in whole seconds, the
/// precision at which it is shown.
#[derive(Debug)]
pub struct Song {
    pub id: String,
    pub title: String,
    pub channel: String,
    pub duration_secs: u64,
    pub thumbnail: Option<String>,
    pub webpage_url: String,
}

impl Clone for Song {
    fn clone(&self) -> (r: Song)
        ensures
            r == *self,
    {
        Song {
            id: self.id.clone(),
            title: self.title.clone(),
            channel: self.channel.clone(),
            duration_secs: self.duration_secs,
            thumbnail: match &self.thumbnail {
                Some(t) => Some(t.clone()),
                None => None,
            },
            webpage_url: self.webpage_url.clone(),
        }
    }
}

/// The channel name used when a search result names neither a channel nor
/// an uploader.
pub fn default_channel() -> (s: String)
    ensures
        s@ == "Unknown"@,
{
    crate::text::owned("Unknown")
}

/// `mm:ss` clock text for a number of seconds (minutes are not wrapped at
/// an hour, and are at least two digits wide).
pub open spec fn clock_text(total_secs: nat) -> Seq<char> {
    crate::text::two_digits(total_secs / 60) + seq![':'] + crate::text::two_digits(total_secs % 60)
}

/// Formats seconds as `mm:ss` (the `{:02}:{:02}` format).
pub fn format_clock(total_secs: u64) -> (s: String)
    ensures
        s@ == clock_text(total_secs as nat),
{
    let mut s = crate::text::two_digit_decimal(total_secs / 60);
    crate::text::push_char(&mut s, ':');
    let secs = crate::text::two_digit_decimal(total_secs % 60);
    s.append(secs.as_str());
    s
}

impl Song {
    /// The song's duration as `mm:ss`.
    pub fn duration_formatted(&self) -> (s: String)
        ensures
            s@ == clock_text(self.duration_secs as nat),
    {
        format_clock(self.duration_secs)
    }
}

/// A search result as yt-dlp reports it, before defaults are filled in.
pub struct RawSong {
    pub id: String,
    pub title: String,
    pub channel: Option<String>,
    pub uploader: Option<String>,
    pub duration_secs: Option<u64>,
    pub thumbnail: Option<String>,
    pub webpage_url: Option<String>,
}

/// The watch page of a video id: the id itself when it is already a URL.
pub open spec fn spec_watch_url(id: Seq<char>) -> Seq<char> {
    if crate::text::seq_starts_with(id, "http"@) {
        id
    } else {
        "https://youtube.com/watch?v="@ + id
    }
}

impl RawSong {
    /// The song with its defaults filled in: the channel falls back to the
    /// uploader and then to "Unknown", a missing duration is zero, and a
    /// missing page URL is derived from the id.
    pub fn into_song(self) -> (s: Song)
        ensures
            s.id == self.id,
            s.title == self.title,
            s.channel@ == (match self.channel {
                Some(c) => c@,
                None => match self.uploader {
                    Some(u) => u@,
                    None => "Unknown"@,
                },
            }),
            s.duration_secs == (match self.duration_secs { Some(d) => d, None => 0 }),
            s.thumbnail == self.thumbnail,
            s.webpage_url@ == (match self.webpage_url {
                Some(u) => u@,
                None => spec_watch_url(self.id@),
            }),
    {
        let channel = match self.channel {
            Some(c) => c,
            None => match self.uploader {
                Some(u) => u,
                None => default_channel(),
            },
        };
        let webpage_url = match self.webpage_url {
            Some(u) => u,
            None => {
                proof {
                    reveal_strlit("http");
                    reveal_strlit("https://youtube.com/watch?v=");
                }
                if crate::text::starts_with(self.id.as_str(), "http") {
                    self.id.clone()
                } else {
                    let mut u = crate::text::owned("https://youtube.com/watch?v=");
                    u.append(self.id.as_str());
                    u
                }
            },
        };
        let duration_secs = match self.duration_secs {
            Some(d) => d,
            None => 0,
        };
        Song {
            id: self.id,
            title: self.title,
            channel,
            duration_secs,
            thumbnail: self.thumbnail,
            webpage_url,
        }
    }
}

} // verus!

verus! {

/// The play queue: the songs, the position of the current one, the repeat
/// mode, and a version counter that changes on every edit of the songs (it
/// tells the interface when to save or redraw the queue).
#[derive(Debug)]
pub struct Playlist {
    pub name: String,
    pub songs: Vec<Song>,
    pub current_index: usize,
    pub repeat_mode: RepeatMode,
    pub version: usize,
}

/// `v + 1`, wrapping to zero past `usize::MAX`.
pub open spec fn bump(v: usize) -> usize {
    if v == usize::MAX { 0 } else { (v + 1) as usize }
}

fn bump_version(v: usize) -> (r: usize)
    ensures
        r == bump(v),
{
    if v == usize::MAX { 0 } else { v + 1 }
}

/// Whether `Playlist::next` yields a song from position `current` in a queue
/// of `len` songs.
pub open spec fn next_moves(len: int, current: usize, mode: RepeatMode) -> bool {
    len > 0 && (current + 1 < len || mode == RepeatMode::All)
}

/// The position `Playlist::next` moves to.
pub open spec fn next_index(len: int, current: usize, mode: RepeatMode) -> usize {
    if len <= 0 {
        current
    } else if current + 1 < len {
        (current + 1) as usize
    } else if mode == RepeatMode::All {
        0
    } else {
        current
    }
}

/// Whether `Playlist::previous` yields a song from position `current`.
pub open spec fn previous_moves(len: int, current: usize, mode: RepeatMode) -> bool {
    len > 0 && (if current > 0 { current - 1 < len } else { mode == RepeatMode::All })
}

/// The position `Playlist::previous` moves to.
pub open spec fn previous_index(len: int, current: usize, mode: RepeatMode) -> usize {
    if len <= 0 {
        current
    } else if current > 0 {
        (current - 1) as usize
    } else if mode == RepeatMode::All {
        (len - 1) as usize
    } else {
        current
    }
}

/// Where the current position ends up after the song at `index` is removed
/// from a queue of `len` songs whose current position was `current`.
pub open spec fn index_after_remove(current: int, index: int, len: int) -> int {
    let new_len = len - 1;
    if new_len == 0 {
        0
    } else if index == current {
        if current < new_len - 1 { current } else { new_len - 1 }
    } else if index < current {
        current - 1
    } else if current >= new_len {
        new_len - 1
    } else {
        current
    }
}

impl Playlist {
    /// The current position designates a song, or is zero on an empty queue.
    pub open spec fn well_formed(&self) -> bool {
        if self.songs@.len() == 0 {
            self.current_index == 0
        } else {
            self.current_index < self.songs@.len()
        }
    }

    /// The current song, if the current position designates one.
    pub open spec fn spec_current(&self) -> Option<Song> {
        if self.current_index < self.songs@.len() {
            Some(self.songs@[self.current_index as int])
        } else {
            None
        }
    }

    /// An empty queue named "Queue", repeat off, version 0.
    pub fn new() -> (p: Playlist)
        ensures
            p.name@ == "Queue"@,
            p.songs@.len() == 0,
            p.current_index == 0,
            p.repeat_mode == RepeatMode::Off,
            p.version == 0,
            p.well_formed(),
    {
        Playlist {
            name: crate::text::owned("Queue"),
            songs: Vec::new(),
            current_index: 0,
            repeat_mode: RepeatMode::Off,
            version: 0,
        }
    }

    /// The song at the current position, if any.
    pub fn current_song(&self) -> (r: Option<&Song>)
        ensures
            r matches Some(s) ==> self.spec_current() == Some(*s),
            r is None <==> self.spec_current() is None,
    {
        if self.current_index < self.songs.len() {
            Some(&self.songs[self.current_index])
        } else {
            None
        }
    }

    /// Advance to the next song. At the end of the queue, wraps to the first
    /// song under `RepeatMode::All`; otherwise nothing moves and `None` is
    /// returned. Returns the new current song.
    pub fn next(&mut self) -> (r: Option<Song>)
        ensures
            *final(self) == (Playlist { current_index: next_index(
                old(self).songs@.len() as int, old(self).current_index, old(self).repeat_mode), ..*old(self) }),
            r is Some <==> next_moves(old(self).songs@.len() as int, old(self).current_index, old(self).repeat_mode),
            r is Some ==> r == final(self).spec_current(),
    {
        let len = self.songs.len();
        if len == 0 {
            return None;
        }
        if self.current_index < len - 1 {
            self.current_index = self.current_index + 1;
            Some(self.songs[self.current_index].clone())
        } else if self.repeat_mode == RepeatMode::All {
            self.current_index = 0;
            Some(self.songs[0].clone())
        } else {
            None
        }
    }

    /// Step back to the previous song. At the start of the queue, wraps to
    /// the last song under `RepeatMode::All`; otherwise nothing moves and
    /// `None` is returned. Returns the new current song.
    pub fn previous(&mut self) -> (r: Option<Song>)
        ensures
            *final(self) == (Playlist { current_index: previous_index(
                old(self).songs@.len() as int, old(self).current_index, old(self).repeat_mode), ..*old(self) }),
            r is Some <==> previous_moves(old(self).songs@.len() as int, old(self).current_index, old(self).repeat_mode),
            r is Some ==> r == final(self).spec_current(),
    {
        let len = self.songs.len();
        if len == 0 {
            return None;
        }
        if self.current_index > 0 {
            self.current_index = self.current_index - 1;
            if self.current_index < len {
                Some(self.songs[self.current_index].clone())
            } else {
                None
            }
        } else if self.repeat_mode == RepeatMode::All {
            self.current_index = len - 1;
            Some(self.songs[len - 1].clone())
        } else {
            None
        }
    }

    /// Append a song at the end of the queue.
    pub fn add(&mut self, song: Song)
        ensures
            final(self).songs@ == old(self).songs@.push(song),
            *final(self) == (Playlist { songs: final(self).songs, version: bump(old(self).version), ..*old(self) }),
    {
        self.songs.push(song);
        self.version = bump_version(self.version);
    }

    /// Remove the song at `index` (out-of-range indices are ignored). The
    /// current position follows its song when an earlier song is removed;
    /// when the current song itself is removed the position stays (clamped
    /// to the new end), so the following song becomes current.
    pub fn remove(&mut self, index: usize)
        ensures
            final(self).name == old(self).name,
            final(self).repeat_mode == old(self).repeat_mode,
            index >= old(self).songs@.len() ==> *final(self) == *old(self),
            index < old(self).songs@.len() ==> {
                &&& final(self).songs@ == old(self).songs@.remove(index as int)
                &&& *final(self) == (Playlist {
                    songs: final(self).songs,
                    current_index: index_after_remove(
                        old(self).current_index as int, index as int, old(self).songs@.len() as int) as usize,
                    version: bump(old(self).version),
                    ..*old(self) })
            },
    {
        let len = self.songs.len();
        if index < len {
            let was_before_current = index < self.current_index;
            let was_current = index == self.current_index;
            self.songs.remove(index);
            let new_len = self.songs.len();
            if new_len == 0 {
                self.current_index = 0;
            } else if was_current {
                if self.current_index >= new_len - 1 {
                    self.current_index = new_len - 1;
                }
            } else if was_before_current {
                self.current_index = self.current_index - 1;
            } else if self.current_index >= new_len {
                self.current_index = new_len - 1;
            }
            self.version = bump_version(self.version);
        }
    }

    /// Empty the queue and reset the position.
    pub fn clear(&mut self)
        ensures
            final(self).songs@.len() == 0,
            *final(self) == (Playlist { songs: final(self).songs, current_index: 0, version: bump(old(self).version), ..*old(self) }),
    {
        self.songs.clear();
        self.current_index = 0;
        self.version = bump_version(self.version);
    }

    pub fn len(&self) -> (n: usize)
        ensures
            n == self.songs@.len(),
    {
        self.songs.len()
    }

    pub fn songs(&self) -> (s: &[Song])
        ensures
            s@ == self.songs@,
    {
        self.songs.as_slice()
    }

    /// Move the current position to `index` when it designates a song;
    /// other indices are ignored.
    pub fn set_current_index(&mut self, index: usize)
        ensures
            *final(self) == (Playlist { current_index: if index < old(self).songs@.len() { index } else { old(self).current_index }, ..*old(self) }),
    {
        if index < self.songs.len() {
            self.current_index = index;
        }
    }

    /// Position of the first song with the given id.
    pub fn position_of(&self, id: &str) -> (r: Option<usize>)
        ensures
            r matches Some(i) ==> i < self.songs@.len() && self.songs@[i as int].id@ == id@
                && forall|j: int| 0 <= j < i ==> self.songs@[j].id@ != id@,
            r is None ==> forall|j: int| 0 <= j < self.songs@.len() ==> self.songs@[j].id@ != id@,
    {
        let n = self.songs.len();
        let mut i: usize = 0;
        while i < n
            invariant
                n == self.songs@.len(),
                i <= n,
                forall|j: int| 0 <= j < i ==> self.songs@[j].id@ != id@,
            decreases n - i,
        {
            if crate::text::str_eq(self.songs[i].id.as_str(), id) {
                return Some(i);
            }
            i = i + 1;
        }
        None
    }
}

impl Default for Playlist {
    fn default() -> (p: Playlist)
        ensures
            p.name@ == "Queue"@,
            p.songs@.len() == 0,
            p.current_index == 0,
            p.repeat_mode == RepeatMode::Off,
            p.version == 0,
    {
        Playlist::new()
    }
}

/// A copy of a list of songs.
pub fn clone_songs(v: &Vec<Song>) -> (r: Vec<Song>)
    ensures
        r@ == v@,
{
    let mut songs: Vec<Song> = Vec::new();
    let n = v.len();
    let mut i: usize = 0;
    while i < n
        invariant
            n == v@.len(),
            i <= n,
            songs@ == v@.subrange(0, i as int),
        decreases n - i,
    {
        songs.push(v[i].clone());
        i = i + 1;
        assert(songs@ =~= v@.subrange(0, i as int));
    }
    assert(songs@ =~= v@);
    songs
}

impl Clone for Playlist {
    fn clone(&self) -> (r: Playlist)
        ensures
            r.name == self.name,
            r.songs@ == self.songs@,
            r.current_index == self.current_index,
            r.repeat_mode == self.repeat_mode,
            r.version == self.version,
    {
        let songs = clone_songs(&self.songs);
        Playlist {
            name: self.name.clone(),
            songs,
            current_index: self.current_index,
            repeat_mode: self.repeat_mode,
            version: self.version,
        }
    }
}

} // verus!

verus! {

/// A queue position is valid for `len` songs: it designates a song, or is
/// zero on an empty queue (what `Playlist::well_formed` asks of a queue).
pub open spec fn position_valid(len: int, current: int) -> bool {
    if len == 0 { current == 0 } else { 0 <= current < len }
}

/// Law: every queue operation keeps a valid position valid — stepping
/// forward or back, appending, removing any song, clearing, and jumping to
/// a position.
pub proof fn lemma_queue_operations_keep_position_valid(len: int, current: usize, mode: RepeatMode, index: usize)
    requires
        len >= 0,
        position_valid(len, current as int),
    ensures
        position_valid(len, next_index(len, current, mode) as int),
        position_valid(len, previous_index(len, current, mode) as int),
        position_valid(len + 1, current as int),
        index < len ==> position_valid(len - 1, index_after_remove(current as int, index as int, len)),
        position_valid(0, 0),
        position_valid(len, (if index < len { index } else { current }) as int),
{
}

/// Law: removing a song other than the current one keeps the same song
/// current.
pub proof fn lemma_remove_keeps_current_song(songs: Seq<Song>, current: usize, index: usize)
    requires
        current < songs.len(),
        index < songs.len(),
        index != current,
    ensures
        songs.remove(index as int)[index_after_remove(current as int, index as int, songs.len() as int)]
            == songs[current as int],
{
    let r = index_after_remove(current as int, index as int, songs.len() as int);
    if index < current {
        assert(r == current - 1);
    } else {
        assert(r == current);
    }
}

/// Law: stepping back undoes a step forward that yielded a song, and
/// stepping forward undoes a step back that yielded a song, on a valid
/// position.
pub proof fn lemma_previous_undoes_next(len: int, current: usize, mode: RepeatMode)
    requires
        len <= usize::MAX,
        position_valid(len, current as int),
    ensures
        next_moves(len, current, mode) ==> previous_index(len, next_index(len, current, mode), mode) == current,
        previous_moves(len, current, mode) ==> next_index(len, previous_index(len, current, mode), mode) == current,
{
}

/// Law: under `RepeatMode::All` a non-empty queue always yields a song in
/// both directions.
pub proof fn lemma_repeat_all_never_runs_out(len: int, current: usize)
    requires
        len > 0,
        position_valid(len, current as int),
    ensures
        next_moves(len, current, RepeatMode::All),
        previous_moves(len, current, RepeatMode::All),
{
}

/// Law: the repeat mode cycles with period three, and the three persisted
/// names are distinct, so parsing a mode's name gives the mode back.
pub proof fn lemma_repeat_mode_cycle(m: RepeatMode, other: RepeatMode)
    ensures
        m.spec_next().spec_next().spec_next() == m,
        m.spec_next() != m,
        m != other ==> m.spec_as_str() != other.spec_as_str(),
{
    reveal_strlit("None");
    reveal_strlit("All");
    reveal_strlit("One");
    if m != other {
        match (m, other) {
            (RepeatMode::Off, RepeatMode::All) => assert("None"@[0] != "All"@[0]),
            (RepeatMode::Off, RepeatMode::One) => assert("None"@[1] != "One"@[1]),
            (RepeatMode::All, RepeatMode::Off) => assert("None"@[0] != "All"@[0]),
            (RepeatMode::All, RepeatMode::One) => assert("All"@[0] != "One"@[0]),
            (RepeatMode::One, RepeatMode::Off) => assert("None"@[1] != "One"@[1]),
            (RepeatMode::One, RepeatMode::All) => assert("All"@[0] != "One"@[0]),
            _ => {},
        }
    }
}

} // verus!
