use rgytui::domain::media::Song;
use rgytui::search::{cache_key, SearchCache, SEARCH_CACHE_TTL_MS};

fn song(id: &str) -> Song {
    Song {
        id: id.to_string(),
        title: format!("Song {id}"),
        channel: "Test".into(),
        duration_secs: 60,
        thumbnail: None,
        webpage_url: format!("https://youtube.com/watch?v={id}"),
    }
}

#[test]
fn cache_key_puts_the_limit_first() {
    assert_eq!(cache_key("lofi beats", 20), "20:lofi beats");
    assert_eq!(cache_key("", 0), "0:");
}

#[test]
fn cached_results_are_served_for_a_minute() {
    let mut c = SearchCache::new();
    let key = cache_key("q", 10);
    c.store(key.clone(), vec![song("a"), song("b")], 1_000);
    let hit = c.lookup(&key, 1_000 + SEARCH_CACHE_TTL_MS - 1).unwrap();
    assert_eq!(hit.len(), 2);
    assert_eq!(hit[1].id, "b");
    assert!(c.lookup(&key, 1_000 + SEARCH_CACHE_TTL_MS).is_none());
    assert!(c.lookup(&key, 1_000).is_none(), "an expired entry is dropped");
}

#[test]
fn storing_again_replaces_the_entry() {
    let mut c = SearchCache::new();
    c.store("k".into(), vec![song("a")], 0);
    c.store("k".into(), vec![song("z")], 100);
    let hit = c.lookup("k", 200).unwrap();
    assert_eq!(hit.len(), 1);
    assert_eq!(hit[0].id, "z");
    assert!(c.lookup("other", 200).is_none());
}

#[test]
fn a_clock_that_went_back_counts_as_no_time() {
    let mut c = SearchCache::new();
    c.store("k".into(), vec![song("a")], 5_000);
    assert!(c.lookup("k", 10).is_some());
}
