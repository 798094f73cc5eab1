use rgytui::audio::{HealthWatch, StallVerdict, STALL_TIMEOUT_MS};
use rgytui::domain::audio_mode::AudioMode;
use rgytui::domain::error::DomainError;
use rgytui::domain::player_state::PlayerState;
use rgytui::logging::{rotation_needed, LogRotation, LOG_MAX_BYTES};
use rgytui::text::{nonblank_lines, trim};
use rgytui::uninstall::{is_yes_answer, skip_prompt, uninstall_cmd_script, uninstall_ps1_script};
use rgytui::ytdlp::{
    audio_format, download_args, downloaded_path, metadata_args, output_template, search_args, search_query,
    search_result_lines, stream_url_args, stream_url_from_output,
};

#[test]
fn trim_removes_unicode_white_space() {
    assert_eq!(trim("  hi \t\r\n"), "hi");
    assert_eq!(trim("\u{3000}x\u{a0}"), "x");
    assert_eq!(trim("   "), "");
    assert_eq!(trim("a b"), "a b");
}

#[test]
fn nonblank_lines_skip_blank_ones() {
    assert_eq!(nonblank_lines("a\n\n  b \r\n\n"), vec!["a", "b"]);
    assert!(nonblank_lines("").is_empty());
    assert_eq!(nonblank_lines("only"), vec!["only"]);
}

#[test]
fn search_arguments_follow_yt_dlp_syntax() {
    assert_eq!(search_query("lofi", 15), "ytsearch15:lofi");
    assert_eq!(
        search_args("lofi", 15),
        vec!["--default-search", "ytsearch", "--dump-json", "--no-download", "--flat-playlist", "ytsearch15:lofi"]
    );
    assert_eq!(search_result_lines("{\"id\":1}\n\n{\"id\":2}\n"), vec!["{\"id\":1}", "{\"id\":2}"]);
}

#[test]
fn stream_lookups_pick_the_format() {
    assert_eq!(stream_url_args("u", true), vec!["-f", "bestaudio", "-g", "u"]);
    assert_eq!(stream_url_args("u", false), vec!["-f", "best", "-g", "u"]);
    assert_eq!(stream_url_from_output("  https://cdn/x \n").unwrap(), "https://cdn/x");
    match stream_url_from_output(" \n") {
        Err(DomainError::YtDlp(m)) => assert_eq!(m, "Empty stream URL"),
        other => panic!("unexpected {:?}", other),
    }
}

#[test]
fn downloads_convert_to_known_formats_only() {
    assert_eq!(audio_format("mp4"), Some("m4a"));
    assert_eq!(audio_format("flac"), Some("flac"));
    assert_eq!(audio_format("ogg"), None);
    assert_eq!(output_template("/music//"), "/music/%(title)s.%(ext)s");
    assert_eq!(
        download_args("URL", "/music/", "mp3"),
        vec!["-f", "bestaudio/best", "-o", "/music/%(title)s.%(ext)s", "--no-playlist", "--print",
            "after_move:filename", "-x", "--audio-format", "mp3", "URL"]
    );
    assert_eq!(download_args("URL", "d", "ogg").len(), 8);
    assert_eq!(downloaded_path("/music/", "URL", " /music/a.mp3\n"), "/music/a.mp3");
    assert_eq!(downloaded_path("C:\\Music\\", "URL", ""), "C:\\Music/URL");
    assert_eq!(metadata_args("URL"), vec!["--dump-json", "--no-download", "URL"]);
}

#[test]
fn uninstall_answers_and_flags() {
    assert!(is_yes_answer(" y\n"));
    assert!(is_yes_answer("Y"));
    assert!(!is_yes_answer("yes"));
    assert!(!is_yes_answer(""));
    assert!(skip_prompt(&vec!["rgytui".to_string(), "uninstall".to_string(), "-y".to_string()]));
    assert!(skip_prompt(&vec!["--yes".to_string()]));
    assert!(!skip_prompt(&vec!["uninstall".to_string()]));
}

#[test]
fn uninstall_scripts_name_the_directories() {
    let s = uninstall_ps1_script("C:\\h\\bin", "C:\\h\\repo", "C:\\h", true, false);
    assert!(s.contains("Remove-Item -Force 'C:\\h\\bin\\rgytui.exe'"));
    assert!(s.contains("Remove-Item -Recurse -Force 'C:\\h\\repo'"));
    assert!(s.contains("Removing yt-dlp"));
    assert!(!s.contains("Removing mpv"));
    let c = uninstall_cmd_script("C:\\t\\x.ps1");
    assert_eq!(c, "@echo off\r\ntitle rgytui uninstall\r\npowershell -NoProfile -ExecutionPolicy RemoteSigned -File \"C:\\t\\x.ps1\"\r\ndel \"%~f0\"\r\n");
}

#[test]
fn log_rotation_latches_after_a_failed_rename() {
    assert!(!rotation_needed(None, 10));
    assert!(!rotation_needed(Some(9), 10));
    assert!(rotation_needed(Some(10), 10));
    let mut r = LogRotation::open_with_cap(0, 10);
    assert!(!r.after_write(9));
    assert!(r.after_write(1));
    r.after_rotate(false, Some(12));
    assert!(r.rotation_failed);
    assert!(!r.after_write(100));
    let mut ok = LogRotation::open_with_cap(0, LOG_MAX_BYTES);
    ok.after_rotate(true, None);
    assert_eq!(ok.written, LOG_MAX_BYTES);
    assert!(ok.after_write(0), "a failed reopen retries at the next write");
}

#[test]
fn health_checks_are_rate_limited() {
    let mut w = HealthWatch::new();
    assert!(w.begin_check(1_000, PlayerState::Playing));
    assert!(!w.begin_check(1_200, PlayerState::Playing));
    assert!(!w.begin_check(1_600, PlayerState::Paused));
    assert_eq!(w.last_health_check_ms, Some(1_600));
    assert!(w.device_check_due(0));
    assert!(!w.device_check_due(999));
    assert!(w.device_check_due(1_000));
}

#[test]
fn a_still_position_is_a_stall_only_after_the_timeout() {
    let mut w = HealthWatch::new();
    assert_eq!(w.stall_verdict(0, 5), StallVerdict::Fine);
    assert_eq!(w.stall_verdict(1_000, 5), StallVerdict::Fine);
    assert_eq!(w.stall_verdict(STALL_TIMEOUT_MS - 1, 5), StallVerdict::Fine);
    assert_eq!(w.stall_verdict(STALL_TIMEOUT_MS, 5), StallVerdict::Stalled(5));
    assert_eq!(w.stall_verdict(STALL_TIMEOUT_MS + 1, 6), StallVerdict::Fine);
    assert_eq!(w.route_change_seek(0), 6);
    assert_eq!(w.route_change_seek(9), 9);
}

#[test]
fn toggling_to_video_needs_mpv() {
    assert_eq!(AudioMode::Audio.toggled(true).unwrap(), AudioMode::Video);
    assert_eq!(AudioMode::Video.toggled(false).unwrap(), AudioMode::Audio);
    match AudioMode::Audio.toggled(false) {
        Err(DomainError::Player(m)) => assert!(m.starts_with("mpv is not installed")),
        other => panic!("unexpected {:?}", other),
    }
}
