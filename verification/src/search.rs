//! The cache of search results: a search is answered from the cache for a
//! minute after it was made, then made again.
use vstd::prelude::*;

use crate::domain::media::{Song, clone_songs};
use crate::text::{decimal, owned, str_eq, u64_to_decimal};
use crate::domain::error::DomainError;

verus! {

/// How long, in milliseconds, cached search results stay valid.
pub const SEARCH_CACHE_TTL_MS: u64 = 60000;

/// The cache key of a search: the result limit, a colon and the query.
pub open spec fn spec_cache_key(query: Seq<char>, limit: usize) -> Seq<char> {
    decimal(limit as nat) + ":"@ + query
}

/// The cache key of a search (see `spec_cache_key`).
pub fn cache_key(query: &str, limit: usize) -> (r: String)
    ensures
        r@ == spec_cache_key(query@, limit),
{
    u64_to_decimal(limit as u64).concat(":").concat(query)
}

/// Milliseconds from `from` to `now`, zero when `now` is earlier.
pub open spec fn elapsed_ms(from: u64, now: u64) -> u64 {
    if now >= from { (now - from) as u64 } else { 0 }
}

/// How a search starts: answered from the cache, or by running yt-dlp, whose
/// outcome is then stored under the given key.
pub enum SearchStart {
    Cached(Vec<Song>),
    Run(String),
}

/// The cache after a yt-dlp search run under `key` ends at `now_ms`: a
/// successful run's songs are stored, a failed run changes nothing.
pub open spec fn search_finished(m: Map<Seq<char>, (Seq<Song>, u64)>, key: Seq<char>, success: bool,
    songs: Seq<Song>, now_ms: u64) -> Map<Seq<char>, (Seq<Song>, u64)> {
    if success { m.insert(key, (songs, now_ms)) } else { m }
}

/// One cached search: its key, its results and when they were stored.
pub struct CacheEntry {
    pub key: String,
    pub songs: Vec<Song>,
    pub stored_ms: u64,
}

/// Cached search results by key.
pub struct SearchCache {
    entries: Vec<CacheEntry>,
}

/// Whether no two entries share a key.
pub open spec fn distinct_keys(entries: Seq<CacheEntry>) -> bool {
    forall|i: int, j: int| 0 <= i < j < entries.len() ==> entries[i].key@ != entries[j].key@
}

impl View for SearchCache {
    type V = Map<Seq<char>, (Seq<Song>, u64)>;

    /// Each key's results and when they were stored.
    closed spec fn view(&self) -> Map<Seq<char>, (Seq<Song>, u64)> {
        Map::new(
            |k: Seq<char>| exists|i: int| 0 <= i < self.entries@.len() && self.entries@[i].key@ == k,
            |k: Seq<char>| {
                let i = choose|i: int| 0 <= i < self.entries@.len() && self.entries@[i].key@ == k;
                (self.entries@[i].songs@, self.entries@[i].stored_ms)
            },
        )
    }
}

impl SearchCache {
    /// No key is stored twice; every cache keeps this.
    #[verifier::type_invariant]
    closed spec fn well_formed(&self) -> bool {
        distinct_keys(self.entries@)
    }

    /// An empty cache.
    pub fn new() -> (c: SearchCache)
        ensures
            c@ == Map::<Seq<char>, (Seq<Song>, u64)>::empty(),
    {
        let c = SearchCache { entries: Vec::new() };
        assert(c@ =~= Map::<Seq<char>, (Seq<Song>, u64)>::empty());
        c
    }

    fn position(&self, key: &str) -> (r: Option<usize>)
        ensures
            match r {
                Some(i) => i < self.entries@.len() && self.entries@[i as int].key@ == key@,
                None => forall|j: int| 0 <= j < self.entries@.len() ==> self.entries@[j].key@ != key@,
            },
    {
        let n = self.entries.len();
        let mut i: usize = 0;
        while i < n
            invariant
                n == self.entries@.len(),
                i <= n,
                forall|j: int| 0 <= j < i ==> self.entries@[j].key@ != key@,
            decreases n - i,
        {
            if str_eq(self.entries[i].key.as_str(), key) {
                return Some(i);
            }
            i = i + 1;
        }
        None
    }

    /// The results cached under `key` if they were stored less than a
    /// minute before `now_ms`. Results that have grown older are dropped.
    pub fn lookup(&mut self, key: &str, now_ms: u64) -> (r: Option<Vec<Song>>)
        ensures
            match r {
                Some(songs) => lookup_result(old(self)@, key@, now_ms) == Some(songs@),
                None => lookup_result(old(self)@, key@, now_ms) is None,
            },
            final(self)@ == lookup_after(old(self)@, key@, now_ms),
    {
        proof {
            use_type_invariant(&*self);
        }
        match self.position(key) {
            Some(i) => {
                let stored = self.entries[i].stored_ms;
                let age = if now_ms >= stored { now_ms - stored } else { 0 };
                proof {
                    self.lemma_view_at(i as int);
                }
                if age < SEARCH_CACHE_TTL_MS {
                    Some(clone_songs(&self.entries[i].songs))
                } else {
                    let ghost before = self.entries@;
                    let mut entries: Vec<CacheEntry> = Vec::new();
                    std::mem::swap(&mut entries, &mut self.entries);
                    entries.remove(i);
                    proof {
                        lemma_remove_keeps_distinct(before, i as int);
                    }
                    self.entries = entries;
                    proof {
                        self.lemma_view_after_remove(before, i as int);
                    }
                    None
                }
            },
            None => {
                assert(self@ =~= self@.remove(key@));
                None
            },
        }
    }

    /// Start a search of `query` for `limit` results at `now_ms`: results
    /// cached less than a minute ago answer it at once; otherwise yt-dlp has
    /// to run, and its outcome is handed to `finish_search` under the key.
    pub fn begin_search(&mut self, query: &str, limit: usize, now_ms: u64) -> (r: SearchStart)
        ensures
            match lookup_result(old(self)@, spec_cache_key(query@, limit), now_ms) {
                Some(v) => r matches SearchStart::Cached(c) && c@ == v,
                None => r matches SearchStart::Run(k) && k@ == spec_cache_key(query@, limit),
            },
            final(self)@ == lookup_after(old(self)@, spec_cache_key(query@, limit), now_ms),
    {
        let key = cache_key(query, limit);
        match self.lookup(key.as_str(), now_ms) {
            Some(songs) => SearchStart::Cached(songs),
            None => SearchStart::Run(key),
        }
    }

    /// Finish a yt-dlp search run for `key`: a run that failed (`success`
    /// false) is the error `yt-dlp error: ` followed by its standard error
    /// and caches nothing; a run that succeeded caches the songs parsed from
    /// its output at `now_ms` and returns them.
    pub fn finish_search(&mut self, key: String, success: bool, stderr: &str, songs: Vec<Song>, now_ms: u64)
        -> (r: Result<Vec<Song>, DomainError>)
        ensures
            !success ==> (r matches Err(DomainError::YtDlp(m)) && m@ == "yt-dlp error: "@ + stderr@),
            success ==> (r matches Ok(v) && v@ == songs@),
            final(self)@ == search_finished(old(self)@, key@, success, songs@, now_ms),
    {
        if !success {
            let m = owned("yt-dlp error: ").concat(stderr);
            return Err(DomainError::YtDlp(m));
        }
        let kept = clone_songs(&songs);
        self.store(key, kept, now_ms);
        Ok(songs)
    }

    /// Store the results of a search made at `now_ms`, replacing what was
    /// cached under the same key.
    pub fn store(&mut self, key: String, songs: Vec<Song>, now_ms: u64)
        ensures
            final(self)@ == old(self)@.insert(key@, (songs@, now_ms)),
    {
        proof {
            use_type_invariant(&*self);
        }
        let ghost k = key@;
        let ghost s = songs@;
        match self.position(key.as_str()) {
            Some(i) => {
                let ghost before = self.entries@;
                let mut entries: Vec<CacheEntry> = Vec::new();
                std::mem::swap(&mut entries, &mut self.entries);
                entries.set(i, CacheEntry { key, songs, stored_ms: now_ms });
                proof {
                    assert(distinct_keys(entries@));
                }
                self.entries = entries;
                proof {
                    self.lemma_view_after_set(before, i as int);
                }
            },
            None => {
                let ghost before = self.entries@;
                let mut entries: Vec<CacheEntry> = Vec::new();
                std::mem::swap(&mut entries, &mut self.entries);
                entries.push(CacheEntry { key, songs, stored_ms: now_ms });
                proof {
                    assert(distinct_keys(entries@));
                }
                self.entries = entries;
                proof {
                    self.lemma_view_after_push(before);
                }
            },
        }
    }

    proof fn lemma_view_at(&self, i: int)
        requires
            self.well_formed(),
            0 <= i < self.entries@.len(),
        ensures
            self@.contains_key(self.entries@[i].key@),
            self@[self.entries@[i].key@] == (self.entries@[i].songs@, self.entries@[i].stored_ms),
    {
        let k = self.entries@[i].key@;
        assert(self@.dom().contains(k));
        let j = choose|j: int| 0 <= j < self.entries@.len() && self.entries@[j].key@ == k;
        assert(j == i);
    }

    proof fn lemma_view_after_remove(&self, before: Seq<CacheEntry>, i: int)
        requires
            distinct_keys(before),
            0 <= i < before.len(),
            self.entries@ == before.remove(i),
        ensures
            self@ == (SearchCache::view_of(before)).remove(before[i].key@),
    {
        let k = before[i].key@;
        let old_map = SearchCache::view_of(before);
        assert forall|x: Seq<char>| #[trigger] self@.contains_key(x) <==> old_map.remove(k).contains_key(x) by {
            if self@.contains_key(x) {
                let j = choose|j: int| 0 <= j < self.entries@.len() && self.entries@[j].key@ == x;
                if j < i {
                    assert(before[j].key@ == x);
                } else {
                    assert(before[j + 1].key@ == x);
                }
            }
            if old_map.remove(k).contains_key(x) {
                let j = choose|j: int| 0 <= j < before.len() && before[j].key@ == x;
                assert(j != i);
                if j < i {
                    assert(self.entries@[j].key@ == x);
                } else {
                    assert(self.entries@[j - 1].key@ == x);
                }
            }
        }
        assert forall|x: Seq<char>| #[trigger] self@.contains_key(x) implies self@[x] == old_map.remove(k)[x] by {
            let j = choose|j: int| 0 <= j < self.entries@.len() && self.entries@[j].key@ == x;
            let jb = choose|j: int| 0 <= j < before.len() && before[j].key@ == x;
            if j < i {
                assert(before[j].key@ == x);
                assert(jb == j);
            } else {
                assert(before[j + 1].key@ == x);
                assert(jb == j + 1);
            }
        }
        assert(self@ =~= old_map.remove(k));
    }

    proof fn lemma_view_after_set(&self, before: Seq<CacheEntry>, i: int)
        requires
            distinct_keys(before),
            distinct_keys(self.entries@),
            0 <= i < before.len(),
            self.entries@.len() == before.len(),
            self.entries@[i].key@ == before[i].key@,
            forall|j: int| 0 <= j < before.len() && j != i ==> self.entries@[j] == before[j],
        ensures
            self@ == (SearchCache::view_of(before)).insert(before[i].key@,
                (self.entries@[i].songs@, self.entries@[i].stored_ms)),
    {
        let k = before[i].key@;
        let v = (self.entries@[i].songs@, self.entries@[i].stored_ms);
        let old_map = SearchCache::view_of(before);
        assert forall|x: Seq<char>| #[trigger] self@.contains_key(x) <==> old_map.insert(k, v).contains_key(x) by {
            if self@.contains_key(x) {
                let j = choose|j: int| 0 <= j < self.entries@.len() && self.entries@[j].key@ == x;
                assert(before[j].key@ == x);
            }
            if old_map.insert(k, v).contains_key(x) && x != k {
                let j = choose|j: int| 0 <= j < before.len() && before[j].key@ == x;
                assert(self.entries@[j].key@ == x);
            }
            if x == k {
                assert(self.entries@[i].key@ == x);
            }
        }
        assert forall|x: Seq<char>| #[trigger] self@.contains_key(x) implies self@[x] == old_map.insert(k, v)[x] by {
            let j = choose|j: int| 0 <= j < self.entries@.len() && self.entries@[j].key@ == x;
            if x == k {
                assert(j == i);
            } else {
                let jb = choose|j: int| 0 <= j < before.len() && before[j].key@ == x;
                assert(self.entries@[jb].key@ == x);
                assert(jb == j);
            }
        }
        assert(self@ =~= old_map.insert(k, v));
    }

    proof fn lemma_view_after_push(&self, before: Seq<CacheEntry>)
        requires
            distinct_keys(before),
            self.entries@.len() == before.len() + 1,
            forall|j: int| 0 <= j < before.len() ==> self.entries@[j] == before[j],
            forall|j: int| 0 <= j < before.len() ==> before[j].key@ != self.entries@.last().key@,
        ensures
            self@ == (SearchCache::view_of(before)).insert(self.entries@.last().key@,
                (self.entries@.last().songs@, self.entries@.last().stored_ms)),
    {
        let n = before.len() as int;
        assert(self.entries@.last() == self.entries@[n]);
        let k = self.entries@[n].key@;
        let v = (self.entries@[n].songs@, self.entries@[n].stored_ms);
        let old_map = SearchCache::view_of(before);
        assert forall|x: Seq<char>| #[trigger] self@.contains_key(x) <==> old_map.insert(k, v).contains_key(x) by {
            if self@.contains_key(x) && x != k {
                let j = choose|j: int| 0 <= j < self.entries@.len() && self.entries@[j].key@ == x;
                assert(j < n);
                assert(before[j].key@ == x);
            }
            if old_map.insert(k, v).contains_key(x) && x != k {
                let j = choose|j: int| 0 <= j < before.len() && before[j].key@ == x;
                assert(self.entries@[j].key@ == x);
            }
            if x == k {
                assert(self.entries@[n].key@ == x);
            }
        }
        assert forall|x: Seq<char>| #[trigger] self@.contains_key(x) implies self@[x] == old_map.insert(k, v)[x] by {
            let j = choose|j: int| 0 <= j < self.entries@.len() && self.entries@[j].key@ == x;
            if x == k {
                if j < n {
                    assert(before[j].key@ == self.entries@[j].key@);
                }
                assert(j == n);
            } else {
                assert(j < n);
                assert(before[j].key@ == x);
                let jb = choose|j: int| 0 <= j < before.len() && before[j].key@ == x;
                assert(jb == j);
            }
        }
        assert(self@ =~= old_map.insert(k, v));
    }

    /// The map a list of entries stands for.
    pub closed spec fn view_of(entries: Seq<CacheEntry>) -> Map<Seq<char>, (Seq<Song>, u64)> {
        Map::new(
            |k: Seq<char>| exists|i: int| 0 <= i < entries.len() && entries[i].key@ == k,
            |k: Seq<char>| {
                let i = choose|i: int| 0 <= i < entries.len() && entries[i].key@ == k;
                (entries[i].songs@, entries[i].stored_ms)
            },
        )
    }
}

proof fn lemma_remove_keeps_distinct(entries: Seq<CacheEntry>, i: int)
    requires
        distinct_keys(entries),
        0 <= i < entries.len(),
    ensures
        distinct_keys(entries.remove(i)),
{
    let r = entries.remove(i);
    assert forall|a: int, b: int| 0 <= a < b < r.len() implies r[a].key@ != r[b].key@ by {
        let a0 = if a < i { a } else { a + 1 };
        let b0 = if b < i { b } else { b + 1 };
        assert(r[a] == entries[a0]);
        assert(r[b] == entries[b0]);
    }
}

/// What a lookup of `key` at `now_ms` answers from a cache with contents
/// `m`: the results stored under it less than a minute earlier, or nothing.
pub open spec fn lookup_result(m: Map<Seq<char>, (Seq<Song>, u64)>, key: Seq<char>, now_ms: u64) -> Option<Seq<Song>> {
    if m.contains_key(key) && elapsed_ms(m[key].1, now_ms) < SEARCH_CACHE_TTL_MS {
        Some(m[key].0)
    } else {
        None
    }
}

/// The cache contents after such a lookup: unchanged when it answers, else
/// without the key.
pub open spec fn lookup_after(m: Map<Seq<char>, (Seq<Song>, u64)>, key: Seq<char>, now_ms: u64) -> Map<Seq<char>, (Seq<Song>, u64)> {
    if lookup_result(m, key, now_ms) is Some { m } else { m.remove(key) }
}

/// A search stored at `stored_ms` is answered with the same results by a
/// lookup less than a minute later, and no longer once a minute has passed;
/// storing under one key changes no lookup of another.
pub proof fn lemma_store_then_lookup(m: Map<Seq<char>, (Seq<Song>, u64)>, key: Seq<char>, songs: Seq<Song>,
    stored_ms: u64, now_ms: u64, other: Seq<char>)
    requires
        other != key,
    ensures
        elapsed_ms(stored_ms, now_ms) < SEARCH_CACHE_TTL_MS
            ==> lookup_result(m.insert(key, (songs, stored_ms)), key, now_ms) == Some(songs),
        elapsed_ms(stored_ms, now_ms) >= SEARCH_CACHE_TTL_MS
            ==> lookup_result(m.insert(key, (songs, stored_ms)), key, now_ms) is None
                && !lookup_after(m.insert(key, (songs, stored_ms)), key, now_ms).contains_key(key),
        lookup_result(m.insert(key, (songs, stored_ms)), other, now_ms) == lookup_result(m, other, now_ms),
{
}

/// One search over the cache: after a yt-dlp run for a query and limit
/// succeeded at `ran_ms`, the same query and limit started less than a
/// minute later is answered from the cache with the same songs, and no run;
/// once a minute has passed it runs again. A failed run leaves the cache as
/// it was, so it never answers a later search.
pub proof fn lemma_search_law(m: Map<Seq<char>, (Seq<Song>, u64)>, query: Seq<char>, limit: usize,
    songs: Seq<Song>, ran_ms: u64, now_ms: u64)
    ensures
        elapsed_ms(ran_ms, now_ms) < SEARCH_CACHE_TTL_MS ==> lookup_result(
            search_finished(m, spec_cache_key(query, limit), true, songs, ran_ms), spec_cache_key(query, limit), now_ms)
            == Some(songs),
        elapsed_ms(ran_ms, now_ms) >= SEARCH_CACHE_TTL_MS ==> lookup_result(
            search_finished(m, spec_cache_key(query, limit), true, songs, ran_ms), spec_cache_key(query, limit), now_ms)
            is None,
        search_finished(m, spec_cache_key(query, limit), false, songs, ran_ms) == m,
{
}

} // verus!
