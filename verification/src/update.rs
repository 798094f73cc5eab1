//! Self-update helpers: which release asset fits a platform, whether a
//! release is newer than this build, and how the program binary is taken
//! out of a downloaded archive. Fetching, downloading and installing are the
//! caller's work.
use vstd::prelude::*;

use std::io::Read;

use crate::text::{seq_ends_with, str_eq, owned};
use crate::path_name::{byte_file_name, text_file_name, file_name_bytes, file_name_text, bytes_eq};
use vstd::utf8::encode_utf8;

verus! {

/// The version of this package.
pub const PACKAGE_VERSION: &'static str = "0.1.0";

/// Why an update step failed.
#[derive(Clone, Debug)]
pub enum UpdateError {
    /// A supported operating system on an architecture with no release build.
    UnsupportedArch { os: String, arch: String },
    /// An operating system with no release builds.
    UnsupportedOs(String),
    /// The release has no asset of this name.
    NoAsset { asset: String, tag: String },
    /// An archive extension that cannot be unpacked.
    UnknownFormat(String),
    /// The tar archive holds no file of this name.
    NotInTar(String),
    /// The zip archive holds no file of this name.
    NotInZip(String),
    /// The zip archive could not be opened.
    ZipOpen(String),
    /// Reading an archive failed.
    Archive(String),
    /// Fetching the latest release failed.
    Fetch(String),
}

impl UpdateError {
    /// The text shown for the error.
    pub open spec fn spec_message(&self) -> Seq<char> {
        match self {
            UpdateError::UnsupportedArch { os, arch } =>
                if os@ == "linux"@ {
                    "Unsupported architecture '"@ + arch@ + "' for Linux. Only x86_64 is available."@
                } else if os@ == "macos"@ {
                    "Unsupported architecture '"@ + arch@ + "' for macOS. Only x86_64 and aarch64 are available."@
                } else {
                    "Unsupported architecture '"@ + arch@ + "' for Windows. Only x86_64 is available."@
                },
            UpdateError::UnsupportedOs(os) =>
                "Unsupported OS '"@ + os@ + "'. Only Linux, macOS, and Windows are supported."@,
            UpdateError::NoAsset { asset, tag } =>
                "No binary found for your platform ("@ + asset@ + ") in release "@ + tag@,
            UpdateError::UnknownFormat(ext) => "Unknown archive format '"@ + ext@ + "'"@,
            UpdateError::NotInTar(name) => "Binary '"@ + name@ + "' not found in archive"@,
            UpdateError::NotInZip(name) => "Binary '"@ + name@ + "' not found in zip archive"@,
            UpdateError::ZipOpen(e) => "Failed to read zip archive: "@ + e@,
            UpdateError::Archive(e) => e@,
            UpdateError::Fetch(e) => e@,
        }
    }

    /// The text shown for the error (see `spec_message`).
    pub fn message(&self) -> (r: String)
        ensures
            r@ == self.spec_message(),
    {
        match self {
            UpdateError::UnsupportedArch { os, arch } => {
                let tail = if str_eq(os.as_str(), "linux") {
                    "' for Linux. Only x86_64 is available."
                } else if str_eq(os.as_str(), "macos") {
                    "' for macOS. Only x86_64 and aarch64 are available."
                } else {
                    "' for Windows. Only x86_64 is available."
                };
                owned("Unsupported architecture '").concat(arch.as_str()).concat(tail)
            },
            UpdateError::UnsupportedOs(os) =>
                owned("Unsupported OS '").concat(os.as_str()).concat("'. Only Linux, macOS, and Windows are supported."),
            UpdateError::NoAsset { asset, tag } =>
                owned("No binary found for your platform (").concat(asset.as_str()).concat(") in release ")
                    .concat(tag.as_str()),
            UpdateError::UnknownFormat(ext) => owned("Unknown archive format '").concat(ext.as_str()).concat("'"),
            UpdateError::NotInTar(name) => owned("Binary '").concat(name.as_str()).concat("' not found in archive"),
            UpdateError::NotInZip(name) =>
                owned("Binary '").concat(name.as_str()).concat("' not found in zip archive"),
            UpdateError::ZipOpen(e) => owned("Failed to read zip archive: ").concat(e.as_str()),
            UpdateError::Archive(e) => e.clone(),
            UpdateError::Fetch(e) => e.clone(),
        }
    }
}

/// The release asset built for an operating system and architecture (as
/// Rust names them), if there is one.
pub open spec fn spec_asset_name(os: Seq<char>, arch: Seq<char>) -> Option<Seq<char>> {
    if os == "linux"@ && arch == "x86_64"@ {
        Some("rgytui-x86_64-unknown-linux-gnu.tar.gz"@)
    } else if os == "macos"@ && arch == "x86_64"@ {
        Some("rgytui-x86_64-apple-darwin.tar.gz"@)
    } else if os == "macos"@ && arch == "aarch64"@ {
        Some("rgytui-aarch64-apple-darwin.tar.gz"@)
    } else if os == "windows"@ && arch == "x86_64"@ {
        Some("rgytui-x86_64-pc-windows-msvc.zip"@)
    } else {
        None
    }
}

/// Whether release builds exist for an operating system at all.
pub open spec fn supported_os(os: Seq<char>) -> bool {
    os == "linux"@ || os == "macos"@ || os == "windows"@
}

/// The release asset for the platform with operating system `os` and
/// architecture `arch` (the values of `std::env::consts::OS` and `ARCH`).
pub fn detect_asset_name(os: &str, arch: &str) -> (r: Result<String, UpdateError>)
    ensures
        match r {
            Ok(name) => spec_asset_name(os@, arch@) == Some(name@),
            Err(UpdateError::UnsupportedArch { os: o, arch: a }) =>
                spec_asset_name(os@, arch@) is None && supported_os(os@) && o@ == os@ && a@ == arch@,
            Err(UpdateError::UnsupportedOs(o)) => !supported_os(os@) && o@ == os@,
            Err(_) => false,
        },
{
    proof {
        reveal_strlit("linux");
        reveal_strlit("macos");
        reveal_strlit("windows");
        reveal_strlit("x86_64");
        reveal_strlit("aarch64");
        assert("linux"@[0] != "macos"@[0] && "linux"@[0] != "windows"@[0] && "macos"@[0] != "windows"@[0]);
        assert("x86_64"@.len() != "aarch64"@.len());
    }
    let x86 = str_eq(arch, "x86_64");
    if str_eq(os, "linux") {
        if x86 {
            return Ok(owned("rgytui-x86_64-unknown-linux-gnu.tar.gz"));
        }
    } else if str_eq(os, "macos") {
        if x86 {
            return Ok(owned("rgytui-x86_64-apple-darwin.tar.gz"));
        } else if str_eq(arch, "aarch64") {
            return Ok(owned("rgytui-aarch64-apple-darwin.tar.gz"));
        }
    } else if str_eq(os, "windows") {
        if x86 {
            return Ok(owned("rgytui-x86_64-pc-windows-msvc.zip"));
        }
    } else {
        return Err(UpdateError::UnsupportedOs(owned(os)));
    }
    Err(UpdateError::UnsupportedArch { os: owned(os), arch: owned(arch) })
}

/// The archive extension of an asset name: ".tar.gz", ".zip" or nothing.
pub open spec fn spec_asset_extension(name: Seq<char>) -> Seq<char> {
    if seq_ends_with(name, ".tar.gz"@) {
        ".tar.gz"@
    } else if seq_ends_with(name, ".zip"@) {
        ".zip"@
    } else {
        ""@
    }
}

/// The archive extension of an asset name (see `spec_asset_extension`).
pub fn asset_extension(name: &str) -> (r: &'static str)
    ensures
        r@ == spec_asset_extension(name@),
{
    if crate::text::ends_with(name, ".tar.gz") {
        ".tar.gz"
    } else if crate::text::ends_with(name, ".zip") {
        ".zip"
    } else {
        ""
    }
}

/// The file name of the program on an operating system: with ".exe" on
/// Windows.
pub fn binary_name(os: &str) -> (r: String)
    ensures
        r@ == (if os@ == "windows"@ { "rgytui.exe"@ } else { "rgytui"@ }),
{
    if str_eq(os, "windows") {
        owned("rgytui.exe")
    } else {
        owned("rgytui")
    }
}

/// This build's release tag: "v" and the package version.
pub fn current_version() -> (r: Result<String, UpdateError>)
    ensures
        r matches Ok(v) && v@ == "v"@ + PACKAGE_VERSION@,
{
    Ok(owned("v").concat(PACKAGE_VERSION))
}

/// A downloadable file of a release.
#[derive(Clone, Debug)]
pub struct Asset {
    pub name: String,
    pub browser_download_url: String,
}

/// A published release: its tag and its files.
#[derive(Clone, Debug)]
pub struct Release {
    pub tag_name: String,
    pub assets: Vec<Asset>,
}

/// Whether no asset before position `k` has the name `name`.
pub open spec fn no_asset_named_before(assets: Seq<Asset>, name: Seq<char>, k: int) -> bool {
    forall|j: int| 0 <= j < k ==> (#[trigger] assets[j]).name@ != name
}

/// What a release offers this build, given the name of the asset for this
/// platform: nothing when the release is this build's own version;
/// otherwise its tag and the download address of the first asset with that
/// name, or an error when it has none.
pub open spec fn release_offer(asset_name: Seq<char>, release: Release,
    r: Result<Option<(String, String)>, UpdateError>) -> bool
{
    if release.tag_name@ == "v"@ + PACKAGE_VERSION@ {
        r matches Ok(None)
    } else {
        match r {
            Ok(Some((tag, url))) => tag@ == release.tag_name@ && exists|k: int| 0 <= k < release.assets@.len()
                && no_asset_named_before(release.assets@, asset_name, k)
                && release.assets@[k].name@ == asset_name
                && url@ == release.assets@[k].browser_download_url@,
            Err(UpdateError::NoAsset { asset, tag }) =>
                no_asset_named_before(release.assets@, asset_name, release.assets@.len() as int)
                && asset@ == asset_name && tag@ == release.tag_name@,
            _ => false,
        }
    }
}

/// What a release offers this build (see `release_offer`).
pub fn upgrade_for_release(asset_name: &str, release: &Release) -> (r: Result<Option<(String, String)>, UpdateError>)
    ensures
        release_offer(asset_name@, *release, r),
{
    match current_version() {
        Ok(current) => {
            if str_eq(current.as_str(), release.tag_name.as_str()) {
                return Ok(None);
            }
            assert(release.tag_name@ != "v"@ + PACKAGE_VERSION@);
        },
        Err(_) => {},
    }
    let n = release.assets.len();
    let mut i: usize = 0;
    while i < n
        invariant
            n == release.assets@.len(),
            i <= n,
            no_asset_named_before(release.assets@, asset_name@, i as int),
            release.tag_name@ != "v"@ + PACKAGE_VERSION@,
        decreases n - i,
    {
        if str_eq(release.assets[i].name.as_str(), asset_name) {
            return Ok(Some((release.tag_name.clone(), release.assets[i].browser_download_url.clone())));
        }
        i = i + 1;
    }
    Err(UpdateError::NoAsset { asset: owned(asset_name), tag: release.tag_name.clone() })
}

/// What the latest release offers this platform, given the operating
/// system and architecture and the outcome of fetching the latest release
/// (its text on failure). An unsupported platform is reported first, then a
/// failed fetch, then what the release offers (see `release_offer`).
pub fn check_latest(os: &str, arch: &str, fetched: Result<Release, String>)
    -> (r: Result<Option<(String, String)>, UpdateError>)
    ensures
        match spec_asset_name(os@, arch@) {
            None => match r {
                Err(UpdateError::UnsupportedArch { os: o, arch: a }) => supported_os(os@) && o@ == os@ && a@ == arch@,
                Err(UpdateError::UnsupportedOs(o)) => !supported_os(os@) && o@ == os@,
                _ => false,
            },
            Some(asset) => match fetched {
                Err(e) => r matches Err(UpdateError::Fetch(m)) && m@ == e@,
                Ok(release) => release_offer(asset, release, r),
            },
        },
{
    let asset = match detect_asset_name(os, arch) {
        Ok(a) => a,
        Err(e) => {
            return Err(e);
        },
    };
    match fetched {
        Err(e) => Err(UpdateError::Fetch(e)),
        Ok(release) => upgrade_for_release(asset.as_str(), &release),
    }
}

/// The Windows command script that replaces the installed program once it
/// has exited: it waits (up to 300 tries a second apart) while
/// "rgytui.exe" runs, copies the staged binary `staging` over `dst`, removes
/// the staged copy, logs each outcome to `log` and deletes itself.
pub open spec fn delayed_replace_script_text(staging: Seq<char>, dst: Seq<char>, log: Seq<char>) -> Seq<char> {
    "@echo off\r\ntitle rgytui update\r\necho [%date% %time%] Waiting for rgytui to exit... >> \""@
        + log
        + "\"\r\nset /a tries=0\r\n:wait\r\ntasklist /FI \"IMAGENAME eq rgytui.exe\" 2>nul | find /I \"rgytui.exe\" >nul\r\nif errorlevel 1 goto copy\r\nset /a tries+=1\r\nif %tries% geq 300 goto deferred\r\ntimeout /t 1 /nobreak >nul\r\ngoto wait\r\n:copy\r\ncopy /y \""@
        + staging
        + "\" \""@
        + dst
        + "\" >> \""@
        + log
        + "\" 2>&1\r\nif errorlevel 1 goto failed\r\necho [%date% %time%] OK: rgytui updated. >> \""@
        + log
        + "\"\r\ndel \""@
        + staging
        + "\" >> \""@
        + log
        + "\" 2>&1\r\ngoto done\r\n:failed\r\necho [%date% %time%] ERROR: Failed to update. Close all rgytui instances and try again. >> \""@
        + log
        + "\"\r\ngoto done\r\n:deferred\r\necho [%date% %time%] WARN: rgytui still running after 300s; update deferred to next start. >> \""@
        + log
        + "\"\r\n:done\r\ndel \"%~f0\"\r\n"@
}

/// The script that replaces the program after it exits (see
/// `delayed_replace_script_text`); running it is the caller's work.
pub fn delayed_replace_script(staging: &str, dst: &str, log: &str) -> (r: String)
    ensures
        r@ == delayed_replace_script_text(staging@, dst@, log@),
{
    owned("@echo off\r\ntitle rgytui update\r\necho [%date% %time%] Waiting for rgytui to exit... >> \"")
        .concat(log)
        .concat("\"\r\nset /a tries=0\r\n:wait\r\ntasklist /FI \"IMAGENAME eq rgytui.exe\" 2>nul | find /I \"rgytui.exe\" >nul\r\nif errorlevel 1 goto copy\r\nset /a tries+=1\r\nif %tries% geq 300 goto deferred\r\ntimeout /t 1 /nobreak >nul\r\ngoto wait\r\n:copy\r\ncopy /y \"")
        .concat(staging)
        .concat("\" \"")
        .concat(dst)
        .concat("\" >> \"")
        .concat(log)
        .concat("\" 2>&1\r\nif errorlevel 1 goto failed\r\necho [%date% %time%] OK: rgytui updated. >> \"")
        .concat(log)
        .concat("\"\r\ndel \"")
        .concat(staging)
        .concat("\" >> \"")
        .concat(log)
        .concat("\" 2>&1\r\ngoto done\r\n:failed\r\necho [%date% %time%] ERROR: Failed to update. Close all rgytui instances and try again. >> \"")
        .concat(log)
        .concat("\"\r\ngoto done\r\n:deferred\r\necho [%date% %time%] WARN: rgytui still running after 300s; update deferred to next start. >> \"")
        .concat(log)
        .concat("\"\r\n:done\r\ndel \"%~f0\"\r\n")
}

/// The entry at `index` of a gzip-compressed tar archive, as flate2's
/// `read::GzDecoder` and tar's `Archive::entries` read it, then
/// `Entry::path_bytes`: `None` past the last entry, the raw bytes of the
/// entry's path, or the text of the error met there.
pub uninterp spec fn spec_tar_gz_entry_path_bytes(archive: Seq<u8>, index: usize) -> Option<Result<Seq<u8>, Seq<char>>>;

/// The contents of the entry at `index` of a gzip-compressed tar archive
/// (read to the end with `Read::read_to_end`), or the text of the error.
pub uninterp spec fn spec_tar_gz_entry_data(archive: Seq<u8>, index: usize) -> Result<Seq<u8>, Seq<char>>;

/// The number of files of a zip archive (zip's `ZipArchive::new` and
/// `len`), or the text of the error that opening it gave.
pub uninterp spec fn spec_zip_entry_count(archive: Seq<u8>) -> Result<usize, Seq<char>>;

/// The name of the file at `index` of a zip archive (`ZipArchive::by_index`
/// and `ZipFile::name`), or the text of the error.
pub uninterp spec fn spec_zip_entry_name(archive: Seq<u8>, index: usize) -> Result<Seq<char>, Seq<char>>;

/// The contents of the file at `index` of a zip archive, or the text of the
/// error.
pub uninterp spec fn spec_zip_entry_data(archive: Seq<u8>, index: usize) -> Result<Seq<u8>, Seq<char>>;

/// Path bytes of the tar entry at `index` (flate2 `GzDecoder::new`, tar
/// `Archive::new`, `entries`, `nth`, `Entry::path_bytes`). The contract
/// claims only that the result is the name `spec_tar_gz_entry_path_bytes`
/// of the arguments.
#[verifier::external_body]
fn tar_gz_entry_path_bytes(archive: &[u8], index: usize) -> (r: Option<Result<Vec<u8>, String>>)
    ensures
        match r {
            None => spec_tar_gz_entry_path_bytes(archive@, index) is None,
            Some(Ok(p)) => spec_tar_gz_entry_path_bytes(archive@, index) == Some(Ok::<Seq<u8>, Seq<char>>(p@)),
            Some(Err(e)) => spec_tar_gz_entry_path_bytes(archive@, index) == Some(Err::<Seq<u8>, Seq<char>>(e@)),
        },
{
    let mut tar = tar::Archive::new(flate2::read::GzDecoder::new(archive));
    match tar.entries() {
        Err(e) => Some(Err(e.to_string())),
        Ok(mut entries) => match entries.nth(index) {
            None => None,
            Some(Err(e)) => Some(Err(e.to_string())),
            Some(Ok(entry)) => Some(Ok(entry.path_bytes().into_owned())),
        },
    }
}

/// Contents of the tar entry at `index` (as above, then
/// `Read::read_to_end`). The contract claims only that the result is the
/// name `spec_tar_gz_entry_data` of the arguments.
#[verifier::external_body]
fn tar_gz_entry_data(archive: &[u8], index: usize) -> (r: Result<Vec<u8>, String>)
    ensures
        match r {
            Ok(d) => spec_tar_gz_entry_data(archive@, index) == Ok::<Seq<u8>, Seq<char>>(d@),
            Err(e) => spec_tar_gz_entry_data(archive@, index) == Err::<Seq<u8>, Seq<char>>(e@),
        },
{
    let mut tar = tar::Archive::new(flate2::read::GzDecoder::new(archive));
    let mut entry = match tar.entries().map_err(|e| e.to_string())?.nth(index) {
        Some(e) => e.map_err(|e| e.to_string())?,
        None => return Err(String::new()),
    };
    let mut buf = Vec::new();
    entry.read_to_end(&mut buf).map_err(|e| e.to_string())?;
    Ok(buf)
}

/// Number of files of a zip archive (zip `ZipArchive::new` over a
/// `std::io::Cursor`, then `len`). The contract claims only that the result
/// is the name `spec_zip_entry_count` of the archive.
#[verifier::external_body]
fn zip_entry_count(archive: &[u8]) -> (r: Result<usize, String>)
    ensures
        match r {
            Ok(n) => spec_zip_entry_count(archive@) == Ok::<usize, Seq<char>>(n),
            Err(e) => spec_zip_entry_count(archive@) == Err::<usize, Seq<char>>(e@),
        },
{
    zip::ZipArchive::new(std::io::Cursor::new(archive)).map(|z| z.len()).map_err(|e| e.to_string())
}

/// Name of the zip file at `index` (`ZipArchive::new`, `by_index`,
/// `ZipFile::name`). The contract claims only that the result is the name
/// `spec_zip_entry_name` of the arguments.
#[verifier::external_body]
fn zip_entry_name(archive: &[u8], index: usize) -> (r: Result<String, String>)
    ensures
        match r {
            Ok(n) => spec_zip_entry_name(archive@, index) == Ok::<Seq<char>, Seq<char>>(n@),
            Err(e) => spec_zip_entry_name(archive@, index) == Err::<Seq<char>, Seq<char>>(e@),
        },
{
    let mut zip = zip::ZipArchive::new(std::io::Cursor::new(archive)).map_err(|e| e.to_string())?;
    let file = zip.by_index(index).map_err(|e| e.to_string())?;
    Ok(file.name().to_string())
}

/// Contents of the zip file at `index` (`ZipArchive::new`, `by_index`,
/// `Read::read_to_end`). The contract claims only that the result is the
/// name `spec_zip_entry_data` of the arguments.
#[verifier::external_body]
fn zip_entry_data(archive: &[u8], index: usize) -> (r: Result<Vec<u8>, String>)
    ensures
        match r {
            Ok(d) => spec_zip_entry_data(archive@, index) == Ok::<Seq<u8>, Seq<char>>(d@),
            Err(e) => spec_zip_entry_data(archive@, index) == Err::<Seq<u8>, Seq<char>>(e@),
        },
{
    let mut zip = zip::ZipArchive::new(std::io::Cursor::new(archive)).map_err(|e| e.to_string())?;
    let mut file = zip.by_index(index).map_err(|e| e.to_string())?;
    let mut buf = Vec::new();
    file.read_to_end(&mut buf).map_err(|e| e.to_string())?;
    Ok(buf)
}

/// Whether a tar entry path names the binary: its file name is the UTF-8
/// text of `binary`.
pub open spec fn tar_names_binary(path: Seq<u8>, binary: Seq<char>) -> bool {
    byte_file_name(path) == Some(encode_utf8(binary))
}

/// Whether the tar entries before position `k` were all read and none of
/// them is the binary.
pub open spec fn tar_scan_clear(archive: Seq<u8>, binary: Seq<char>, k: int) -> bool {
    forall|j: usize| 0 <= j < k ==> ((#[trigger] spec_tar_gz_entry_path_bytes(archive, j)) matches Some(Ok(p))
        && !tar_names_binary(p, binary))
}

/// What extracting `binary` from a gzip-compressed tar archive gives (see
/// `extract_from_tar_gz`).
pub open spec fn tar_gz_extraction(archive: Seq<u8>, binary: Seq<char>, r: Result<Vec<u8>, UpdateError>) -> bool {
    match r {
        Ok(data) => exists|k: usize| #![trigger spec_tar_gz_entry_data(archive, k)]
            tar_scan_clear(archive, binary, k as int)
            && (spec_tar_gz_entry_path_bytes(archive, k) matches Some(Ok(p)) && tar_names_binary(p, binary))
            && spec_tar_gz_entry_data(archive, k) == Ok::<Seq<u8>, Seq<char>>(data@),
        Err(UpdateError::Archive(e)) => exists|k: usize| #![trigger spec_tar_gz_entry_path_bytes(archive, k)]
            tar_scan_clear(archive, binary, k as int)
            && (spec_tar_gz_entry_path_bytes(archive, k) == Some(Err::<Seq<u8>, Seq<char>>(e@))
                || (spec_tar_gz_entry_path_bytes(archive, k) matches Some(Ok(p)) && tar_names_binary(p, binary)
                    && spec_tar_gz_entry_data(archive, k) == Err::<Seq<u8>, Seq<char>>(e@))),
        Err(UpdateError::NotInTar(name)) => name@ == binary
            && exists|k: usize| #![trigger spec_tar_gz_entry_path_bytes(archive, k)]
            tar_scan_clear(archive, binary, k as int)
            && (spec_tar_gz_entry_path_bytes(archive, k) is None || k == usize::MAX),
        Err(_) => false,
    }
}

/// The contents of the first entry of a gzip-compressed tar archive whose
/// last path component is `binary_name`. Entries are read in order; the
/// first that cannot be read ends the search with its error, and so does a
/// failure to read the found entry. Without such an entry the binary is not
/// found (also, as a machine limit, after `usize::MAX` entries).
pub fn extract_from_tar_gz(archive: &[u8], binary_name: &str) -> (r: Result<Vec<u8>, UpdateError>)
    ensures
        tar_gz_extraction(archive@, binary_name@, r),
{
    let mut i: usize = 0;
    while i < usize::MAX
        invariant
            tar_scan_clear(archive@, binary_name@, i as int),
        decreases usize::MAX - i,
    {
        match tar_gz_entry_path_bytes(archive, i) {
            None => {
                return Err(UpdateError::NotInTar(owned(binary_name)));
            },
            Some(Err(e)) => {
                return Err(UpdateError::Archive(e));
            },
            Some(Ok(path)) => {
                let found = match file_name_bytes(path.as_slice()) {
                    Some(n) => bytes_eq(n.as_slice(), binary_name.as_bytes()),
                    None => false,
                };
                if found {
                    return match tar_gz_entry_data(archive, i) {
                        Ok(data) => Ok(data),
                        Err(e) => Err(UpdateError::Archive(e)),
                    };
                }
                assert(spec_tar_gz_entry_path_bytes(archive@, i) matches Some(Ok(p)) && !tar_names_binary(p, binary_name@));
            },
        }
        i = i + 1;
    }
    assert(tar_scan_clear(archive@, binary_name@, i as int)
        && (spec_tar_gz_entry_path_bytes(archive@, i) is None || i == usize::MAX));
    Err(UpdateError::NotInTar(owned(binary_name)))
}

/// Whether a zip file name names the binary: its last component is
/// `binary`, a name without one counting as empty.
pub open spec fn zip_names_binary(name: Seq<char>, binary: Seq<char>) -> bool {
    match text_file_name(name) {
        Some(f) => f == binary,
        None => binary.len() == 0,
    }
}

/// Whether the zip files before position `k` were all read and none of them
/// is the binary.
pub open spec fn zip_scan_clear(archive: Seq<u8>, binary: Seq<char>, k: int) -> bool {
    forall|j: usize| 0 <= j < k ==> ((#[trigger] spec_zip_entry_name(archive, j)) matches Ok(n)
        && !zip_names_binary(n, binary))
}

/// What extracting `binary` from a zip archive gives (see
/// `extract_from_zip`).
pub open spec fn zip_extraction(archive: Seq<u8>, binary: Seq<char>, r: Result<Vec<u8>, UpdateError>) -> bool {
        match r {
            Ok(data) => spec_zip_entry_count(archive) matches Ok(n) && exists|k: usize|
                #![trigger spec_zip_entry_data(archive, k)]
                k < n && zip_scan_clear(archive, binary, k as int)
                && (spec_zip_entry_name(archive, k) matches Ok(m) && zip_names_binary(m, binary))
                && spec_zip_entry_data(archive, k) == Ok::<Seq<u8>, Seq<char>>(data@),
            Err(UpdateError::ZipOpen(e)) => spec_zip_entry_count(archive) == Err::<usize, Seq<char>>(e@),
            Err(UpdateError::Archive(e)) => spec_zip_entry_count(archive) matches Ok(n) && exists|k: usize|
                #![trigger spec_zip_entry_name(archive, k)]
                k < n && zip_scan_clear(archive, binary, k as int)
                && (spec_zip_entry_name(archive, k) == Err::<Seq<char>, Seq<char>>(e@)
                    || (spec_zip_entry_name(archive, k) matches Ok(m) && zip_names_binary(m, binary)
                        && spec_zip_entry_data(archive, k) == Err::<Seq<u8>, Seq<char>>(e@))),
            Err(UpdateError::NotInZip(name)) => name@ == binary
                && (spec_zip_entry_count(archive) matches Ok(n) && zip_scan_clear(archive, binary, n as int)),
            Err(_) => false,
        }
}

/// The contents of the first file of a zip archive whose last path
/// component is `binary_name`. An archive that cannot be opened, a file that
/// cannot be read before it is found, or a failure to read the found file
/// ends the search with its error.
pub fn extract_from_zip(archive: &[u8], binary_name: &str) -> (r: Result<Vec<u8>, UpdateError>)
    ensures
        zip_extraction(archive@, binary_name@, r),
{
    let n = match zip_entry_count(archive) {
        Ok(n) => n,
        Err(e) => {
            return Err(UpdateError::ZipOpen(e));
        },
    };
    let mut i: usize = 0;
    while i < n
        invariant
            spec_zip_entry_count(archive@) == Ok::<usize, Seq<char>>(n),
            i <= n,
            zip_scan_clear(archive@, binary_name@, i as int),
        decreases n - i,
    {
        match zip_entry_name(archive, i) {
            Err(e) => {
                return Err(UpdateError::Archive(e));
            },
            Ok(name) => {
                let found = match file_name_text(name.as_str()) {
                    Some(f) => str_eq(f.as_str(), binary_name),
                    None => binary_name.unicode_len() == 0,
                };
                if found {
                    return match zip_entry_data(archive, i) {
                        Ok(data) => Ok(data),
                        Err(e) => Err(UpdateError::Archive(e)),
                    };
                }
                assert(spec_zip_entry_name(archive@, i) matches Ok(m) && !zip_names_binary(m, binary_name@));
            },
        }
        i = i + 1;
    }
    Err(UpdateError::NotInZip(owned(binary_name)))
}

/// The binary taken out of a downloaded archive, by the archive's extension
/// (see `spec_asset_extension`): ".tar.gz" and ".zip" archives are searched
/// for `binary_name`, any other extension is refused.
pub fn extract_binary(archive: &[u8], ext: &str, binary_name: &str) -> (r: Result<Vec<u8>, UpdateError>)
    ensures
        ext@ != ".tar.gz"@ && ext@ != ".zip"@ ==> (r matches Err(UpdateError::UnknownFormat(e)) && e@ == ext@),
        ext@ == ".tar.gz"@ ==> tar_gz_extraction(archive@, binary_name@, r),
        ext@ == ".zip"@ ==> zip_extraction(archive@, binary_name@, r),
{
    proof {
        reveal_strlit(".tar.gz");
        reveal_strlit(".zip");
        assert(".tar.gz"@.len() != ".zip"@.len());
    }
    if str_eq(ext, ".tar.gz") {
        extract_from_tar_gz(archive, binary_name)
    } else if str_eq(ext, ".zip") {
        extract_from_zip(archive, binary_name)
    } else {
        Err(UpdateError::UnknownFormat(owned(ext)))
    }
}

} // verus!
