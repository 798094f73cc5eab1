use rgytui::cleanup::{cleanup_step, CleanupStep, MAX_SCAN, ORPHAN_MAX_AGE_MS};
use rgytui::domain::error::DomainError;
use rgytui::domain::media::Song;
use rgytui::interface::i18n::Translations;
use rgytui::path_name::{bytes_eq, file_name_bytes, file_name_text};
use rgytui::search::{cache_key, SearchCache};

#[test]
fn file_name_text_takes_last_component() {
    assert_eq!(file_name_text("dist/rgytui"), Some("rgytui".to_string()));
    assert_eq!(file_name_text("rgytui.exe"), Some("rgytui.exe".to_string()));
    assert_eq!(file_name_text("a//b/"), Some("b".to_string()));
    assert_eq!(file_name_text("a/b/."), Some("b".to_string()));
    assert_eq!(file_name_text("./.hidden"), Some(".hidden".to_string()));
    assert_eq!(file_name_text("a/..."), Some("...".to_string()));
}

#[test]
fn file_name_text_has_none_for_dots_and_roots() {
    assert_eq!(file_name_text(""), None);
    assert_eq!(file_name_text("/"), None);
    assert_eq!(file_name_text("."), None);
    assert_eq!(file_name_text("a/.."), None);
    assert_eq!(file_name_text(".."), None);
}

#[test]
fn file_name_text_agrees_with_std_on_unix_paths() {
    for p in ["dist/rgytui", "a//b/", "a/b/.", "./x", "a/..", "/", "", "x/y.tar.gz", "é/ü"] {
        let std_name = std::path::Path::new(p).file_name().map(|n| n.to_string_lossy().into_owned());
        assert_eq!(file_name_text(p), std_name, "path {p:?}");
    }
}

#[test]
fn file_name_bytes_keeps_non_utf8_bytes() {
    let p: &[u8] = &[b'd', b'/', 0xff, b'x'];
    assert_eq!(file_name_bytes(p), Some(vec![0xff, b'x']));
    assert_eq!(file_name_bytes(b"dist/rgytui/"), Some(b"rgytui".to_vec()));
    assert_eq!(file_name_bytes(b"dist/.."), None);
}

#[test]
fn bytes_eq_compares_contents() {
    assert!(bytes_eq(b"rgytui", b"rgytui"));
    assert!(!bytes_eq(b"rgytui", b"rgytu"));
    assert!(!bytes_eq(b"abc", b"abd"));
}

#[test]
fn cleanup_removes_only_old_rgytui_files() {
    let now = 10_000_000;
    let old = Some(now - ORPHAN_MAX_AGE_MS - 1);
    let fresh = Some(now - 10);
    assert_eq!(cleanup_step(0, "rgytui-abc.tmp", true, old, now, ORPHAN_MAX_AGE_MS), CleanupStep::Remove);
    assert_eq!(cleanup_step(0, "rgytui-abc.tmp", true, fresh, now, ORPHAN_MAX_AGE_MS), CleanupStep::Keep);
    assert_eq!(cleanup_step(0, "other.tmp", true, old, now, ORPHAN_MAX_AGE_MS), CleanupStep::Keep);
    assert_eq!(cleanup_step(0, "rgytui-dir", false, old, now, ORPHAN_MAX_AGE_MS), CleanupStep::Keep);
    assert_eq!(cleanup_step(0, "rgytui-abc.tmp", true, None, now, ORPHAN_MAX_AGE_MS), CleanupStep::Keep);
    assert_eq!(cleanup_step(MAX_SCAN, "rgytui-abc.tmp", true, old, now, ORPHAN_MAX_AGE_MS), CleanupStep::Stop);
}

fn song(id: &str) -> Song {
    Song {
        id: id.into(),
        title: "t".into(),
        channel: "c".into(),
        duration_secs: 1,
        thumbnail: None,
        webpage_url: "u".into(),
    }
}

#[test]
fn finish_search_caches_only_successes() {
    let mut c = SearchCache::new();
    let key = cache_key("lofi", 5);
    let r = c.finish_search(key.clone(), false, "boom", Vec::new(), 0);
    assert!(matches!(r, Err(DomainError::YtDlp(ref m)) if m == "yt-dlp error: boom"));
    assert!(c.lookup(&key, 1).is_none());
    let r = c.finish_search(key.clone(), true, "", vec![song("a")], 0);
    assert_eq!(r.unwrap().len(), 1);
    assert_eq!(c.lookup(&key, 1).unwrap()[0].id, "a");
}

#[test]
fn locale_language_lowercases_first_two_bytes() {
    assert_eq!(Translations::language_of_locale(Some("ÉX".into())), "é");
    assert_eq!(Translations::language_of_locale(Some("aé".into())), "en");
    assert_eq!(Translations::language_of_locale(Some("日本".into())), "en");
    assert_eq!(Translations::language_of_locale(Some("é".into())), "é");
}

#[test]
fn file_name_text_splits_zip_names_on_backslash() {
    assert_eq!(file_name_text("dist\\rgytui.exe"), Some("rgytui.exe".to_string()));
    assert_eq!(file_name_text("dist\\sub/rgytui.exe\\"), Some("rgytui.exe".to_string()));
    assert_eq!(file_name_text("dist\\.."), None);
    assert_eq!(file_name_text("a\\.\\"), Some("a".to_string()));
}
