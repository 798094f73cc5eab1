//! What is asked of yt-dlp and how its answers are read: the command-line
//! arguments of a search, a stream lookup and a download, and the text they
//! print. Running the program is the caller's work.
use vstd::prelude::*;

use crate::domain::error::DomainError;
use crate::text::{decimal, nonblank_lines, owned, str_eq, trim, trimmed, u64_to_decimal, kept_lines, split_lines};

verus! {

/// The search yt-dlp is given: "ytsearch", the number of results, a colon
/// and the query.
pub open spec fn spec_search_query(query: Seq<char>, limit: usize) -> Seq<char> {
    "ytsearch"@ + decimal(limit as nat) + ":"@ + query
}

/// The search yt-dlp is given (see `spec_search_query`).
pub fn search_query(query: &str, limit: usize) -> (r: String)
    ensures
        r@ == spec_search_query(query@, limit),
{
    owned("ytsearch").concat(u64_to_decimal(limit as u64).as_str()).concat(":").concat(query)
}

/// The views of a list of arguments.
pub open spec fn arg_views(v: Seq<String>) -> Seq<Seq<char>> {
    v.map_values(|a: String| a@)
}

/// Arguments of a search: one JSON line per result, without downloading.
pub fn search_args(query: &str, limit: usize) -> (r: Vec<String>)
    ensures
        arg_views(r@) == seq!["--default-search"@, "ytsearch"@, "--dump-json"@, "--no-download"@,
            "--flat-playlist"@, spec_search_query(query@, limit)],
{
    let r = vec![owned("--default-search"), owned("ytsearch"), owned("--dump-json"), owned("--no-download"),
        owned("--flat-playlist"), search_query(query, limit)];
    assert(arg_views(r@) =~= seq!["--default-search"@, "ytsearch"@, "--dump-json"@, "--no-download"@,
        "--flat-playlist"@, spec_search_query(query@, limit)]);
    r
}

/// The results a search printed: its non-blank lines, trimmed, one JSON
/// object each.
pub fn search_result_lines(stdout: &str) -> (r: Vec<String>)
    ensures
        arg_views(r@) == kept_lines(split_lines(stdout@)),
{
    nonblank_lines(stdout)
}

/// Arguments of a stream lookup: the best audio (or best overall) format's
/// address of a page.
pub fn stream_url_args(url: &str, audio_only: bool) -> (r: Vec<String>)
    ensures
        arg_views(r@) == seq!["-f"@, (if audio_only { "bestaudio"@ } else { "best"@ }), "-g"@, url@],
{
    let format = if audio_only { "bestaudio" } else { "best" };
    let r = vec![owned("-f"), owned(format), owned("-g"), owned(url)];
    assert(arg_views(r@) =~= seq!["-f"@, (if audio_only { "bestaudio"@ } else { "best"@ }), "-g"@, url@]);
    r
}

/// The stream address a lookup printed: its text, trimmed; an empty one is
/// an error.
pub fn stream_url_from_output(stdout: &str) -> (r: Result<String, DomainError>)
    ensures
        trimmed(stdout@).len() > 0 ==> (r matches Ok(u) && u@ == trimmed(stdout@)),
        trimmed(stdout@).len() == 0 ==> (r matches Err(DomainError::YtDlp(m)) && m@ == "Empty stream URL"@),
{
    let t = trim(stdout);
    if t.as_str().unicode_len() == 0 {
        Err(DomainError::YtDlp(owned("Empty stream URL")))
    } else {
        Ok(t)
    }
}

/// `s` without its trailing slashes and backslashes.
pub open spec fn trim_end_slashes(s: Seq<char>) -> Seq<char>
    decreases s.len(),
{
    if s.len() > 0 && (s.last() == '/' || s.last() == '\\') { trim_end_slashes(s.drop_last()) } else { s }
}

fn strip_trailing_slashes(s: &str) -> (r: String)
    ensures
        r@ == trim_end_slashes(s@),
{
    let n = s.unicode_len();
    let mut b: usize = n;
    assert(s@.subrange(0, n as int) =~= s@);
    while b > 0 && (s.get_char(b - 1) == '/' || s.get_char(b - 1) == '\\')
        invariant
            n == s@.len(),
            b <= n,
            trim_end_slashes(s@) == trim_end_slashes(s@.subrange(0, b as int)),
        decreases b,
    {
        assert(s@.subrange(0, b as int).drop_last() =~= s@.subrange(0, b - 1));
        b = b - 1;
    }
    proof {
        let t = s@.subrange(0, b as int);
        if b > 0 {
            assert(t.last() == s@[b - 1]);
        }
        assert(trim_end_slashes(t) == t);
    }
    s.substring_char(0, b).to_owned()
}

/// Where a download is written: the directory (without trailing
/// separators), then the title and extension yt-dlp fills in.
pub open spec fn spec_output_template(output_dir: Seq<char>) -> Seq<char> {
    trim_end_slashes(output_dir) + "/%(title)s.%(ext)s"@
}

/// Where a download is written (see `spec_output_template`).
pub fn output_template(output_dir: &str) -> (r: String)
    ensures
        r@ == spec_output_template(output_dir@),
{
    strip_trailing_slashes(output_dir).concat("/%(title)s.%(ext)s")
}

/// The audio format a download converts to: m4a (also for "mp4"), mp3,
/// flac, wav or opus; any other name keeps the downloaded format.
pub open spec fn spec_audio_format(fmt: Seq<char>) -> Option<Seq<char>> {
    if fmt == "m4a"@ || fmt == "mp4"@ {
        Some("m4a"@)
    } else if fmt == "mp3"@ || fmt == "flac"@ || fmt == "wav"@ || fmt == "opus"@ {
        Some(fmt)
    } else {
        None
    }
}

/// The audio format a download converts to (see `spec_audio_format`).
pub fn audio_format(fmt: &str) -> (r: Option<&'static str>)
    ensures
        match r {
            Some(e) => spec_audio_format(fmt@) == Some(e@),
            None => spec_audio_format(fmt@) is None,
        },
{
    if str_eq(fmt, "m4a") || str_eq(fmt, "mp4") {
        Some("m4a")
    } else if str_eq(fmt, "mp3") {
        Some("mp3")
    } else if str_eq(fmt, "flac") {
        Some("flac")
    } else if str_eq(fmt, "wav") {
        Some("wav")
    } else if str_eq(fmt, "opus") {
        Some("opus")
    } else {
        None
    }
}

/// Arguments of a download: best audio, written by the output template,
/// no playlist, printing the final file name; converted to the chosen
/// audio format when there is one; the page last.
pub open spec fn spec_download_args(url: Seq<char>, output_dir: Seq<char>, fmt: Seq<char>) -> Seq<Seq<char>> {
    let head = seq!["-f"@, "bestaudio/best"@, "-o"@, spec_output_template(output_dir), "--no-playlist"@,
        "--print"@, "after_move:filename"@];
    let conv = match spec_audio_format(fmt) {
        Some(e) => seq!["-x"@, "--audio-format"@, e],
        None => Seq::empty(),
    };
    head + conv + seq![url]
}

/// Arguments of a download (see `spec_download_args`).
pub fn download_args(url: &str, output_dir: &str, fmt: &str) -> (r: Vec<String>)
    ensures
        arg_views(r@) == spec_download_args(url@, output_dir@, fmt@),
{
    let mut r = vec![owned("-f"), owned("bestaudio/best"), owned("-o"), output_template(output_dir),
        owned("--no-playlist"), owned("--print"), owned("after_move:filename")];
    match audio_format(fmt) {
        Some(e) => {
            r.push(owned("-x"));
            r.push(owned("--audio-format"));
            r.push(owned(e));
        },
        None => {},
    }
    r.push(owned(url));
    assert(arg_views(r@) =~= spec_download_args(url@, output_dir@, fmt@));
    r
}

/// The file a download produced: the name it printed, trimmed, or, when it
/// printed nothing, the page address under the output directory.
pub open spec fn spec_downloaded_path(output_dir: Seq<char>, url: Seq<char>, stdout: Seq<char>) -> Seq<char> {
    if trimmed(stdout).len() > 0 {
        trimmed(stdout)
    } else {
        trim_end_slashes(output_dir) + "/"@ + url
    }
}

/// The file a download produced (see `spec_downloaded_path`).
pub fn downloaded_path(output_dir: &str, url: &str, stdout: &str) -> (r: String)
    ensures
        r@ == spec_downloaded_path(output_dir@, url@, stdout@),
{
    let t = trim(stdout);
    if t.as_str().unicode_len() > 0 {
        t
    } else {
        strip_trailing_slashes(output_dir).concat("/").concat(url)
    }
}

/// Arguments of a metadata lookup: the page's JSON description.
pub fn metadata_args(url: &str) -> (r: Vec<String>)
    ensures
        arg_views(r@) == seq!["--dump-json"@, "--no-download"@, url@],
{
    let r = vec![owned("--dump-json"), owned("--no-download"), owned(url)];
    assert(arg_views(r@) =~= seq!["--dump-json"@, "--no-download"@, url@]);
    r
}

/// Law: every format the download popup offers converts the download:
/// its arguments ask yt-dlp to extract the audio (`-x`) in that very format,
/// just before the page address; an "mp4" choice would convert to m4a.
pub proof fn lemma_offered_formats_convert(i: usize, url: Seq<char>, output_dir: Seq<char>)
    requires
        i < 5,
    ensures
        spec_audio_format(crate::keys::format_name(i)) == Some(crate::keys::format_name(i)),
        spec_download_args(url, output_dir, crate::keys::format_name(i)).len() == 11,
        spec_download_args(url, output_dir, crate::keys::format_name(i)).subrange(7, 11)
            == seq!["-x"@, "--audio-format"@, crate::keys::format_name(i), url],
        spec_audio_format("mp4"@) == Some("m4a"@),
{
    reveal_strlit("m4a");
    reveal_strlit("mp4");
    reveal_strlit("mp3");
    reveal_strlit("opus");
    reveal_strlit("flac");
    reveal_strlit("wav");
    let f = crate::keys::format_name(i);
    assert("mp4"@[1] != "m4a"@[1]);
    assert("mp3"@[2] != "m4a"@[2] && "mp3"@[2] != "mp4"@[2]);
    assert("opus"@.len() != "m4a"@.len() && "flac"@.len() != "m4a"@.len());
    assert("wav"@[0] != "m4a"@[0] && "wav"@[0] != "mp4"@[0] && "wav"@[0] != "mp3"@[0]);
    assert("wav"@.len() != "flac"@.len());
    assert(spec_audio_format(f) == Some(f));
    let a = spec_download_args(url, output_dir, f);
    assert(a.subrange(7, 11) =~= seq!["-x"@, "--audio-format"@, f, url]);
}

} // verus!
