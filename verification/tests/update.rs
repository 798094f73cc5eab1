use std::io::Write;

use rgytui::update::{
    asset_extension, binary_name, check_latest, current_version, delayed_replace_script, detect_asset_name,
    extract_binary, extract_from_tar_gz, extract_from_zip, upgrade_for_release, Asset, Release, UpdateError,
    PACKAGE_VERSION,
};

fn tar_gz(files: &[(&str, &[u8])]) -> Vec<u8> {
    let enc = flate2::write::GzEncoder::new(Vec::new(), flate2::Compression::default());
    let mut builder = tar::Builder::new(enc);
    for (name, data) in files {
        let mut header = tar::Header::new_gnu();
        header.set_size(data.len() as u64);
        header.set_mode(0o755);
        header.set_cksum();
        builder.append_data(&mut header, name, *data).unwrap();
    }
    builder.into_inner().unwrap().finish().unwrap()
}

fn zip_archive(files: &[(&str, &[u8])]) -> Vec<u8> {
    let mut w = zip::ZipWriter::new(std::io::Cursor::new(Vec::new()));
    for (name, data) in files {
        w.start_file(*name, zip::write::SimpleFileOptions::default()).unwrap();
        w.write_all(data).unwrap();
    }
    w.finish().unwrap().into_inner()
}

fn release(tag: &str, assets: &[(&str, &str)]) -> Release {
    Release {
        tag_name: tag.to_string(),
        assets: assets
            .iter()
            .map(|(n, u)| Asset { name: n.to_string(), browser_download_url: u.to_string() })
            .collect(),
    }
}

#[test]
fn detect_asset_linux_x86_64() {
    assert_eq!(asset_extension("rgytui-x86_64-unknown-linux-gnu.tar.gz"), ".tar.gz");
}

#[test]
fn detect_asset_windows_x86_64() {
    assert_eq!(asset_extension("rgytui-x86_64-pc-windows-msvc.zip"), ".zip");
}

#[test]
fn detect_asset_macos_arm() {
    assert_eq!(asset_extension("rgytui-aarch64-apple-darwin.tar.gz"), ".tar.gz");
}

#[test]
fn detect_asset_macos_intel() {
    assert_eq!(asset_extension("rgytui-x86_64-apple-darwin.tar.gz"), ".tar.gz");
}

#[test]
fn binary_name_is_platform_specific() {
    assert_eq!(binary_name("windows"), "rgytui.exe");
    assert_eq!(binary_name("linux"), "rgytui");
    assert_eq!(binary_name("macos"), "rgytui");
}

#[test]
fn current_version_returns_v_prefix() {
    let v = current_version().unwrap();
    assert!(v.starts_with('v'), "version should start with 'v'");
    assert!(!v.is_empty());
    assert_eq!(v, format!("v{}", PACKAGE_VERSION));
}

#[test]
fn extract_binary_from_zip_fails_on_empty_archive() {
    let empty: Vec<u8> = vec![];
    let result = extract_from_zip(&empty, "rgytui.exe");
    assert!(result.is_err());
}

#[test]
fn extract_binary_from_tar_gz_fails_on_empty_archive() {
    let empty: Vec<u8> = vec![];
    let result = extract_from_tar_gz(&empty, "rgytui");
    assert!(result.is_err());
}

#[test]
fn asset_extension_of_other_names_is_empty() {
    assert_eq!(asset_extension("rgytui.exe"), "");
    assert_eq!(asset_extension("archive.tar"), "");
}

#[test]
fn detect_asset_name_covers_each_release_build() {
    assert_eq!(detect_asset_name("linux", "x86_64").unwrap(), "rgytui-x86_64-unknown-linux-gnu.tar.gz");
    assert_eq!(detect_asset_name("macos", "x86_64").unwrap(), "rgytui-x86_64-apple-darwin.tar.gz");
    assert_eq!(detect_asset_name("macos", "aarch64").unwrap(), "rgytui-aarch64-apple-darwin.tar.gz");
    assert_eq!(detect_asset_name("windows", "x86_64").unwrap(), "rgytui-x86_64-pc-windows-msvc.zip");
}

#[test]
fn detect_asset_name_refuses_other_platforms() {
    let e = detect_asset_name("linux", "aarch64").unwrap_err();
    assert!(matches!(e, UpdateError::UnsupportedArch { .. }));
    assert_eq!(e.message(), "Unsupported architecture 'aarch64' for Linux. Only x86_64 is available.");
    let e = detect_asset_name("macos", "riscv64").unwrap_err();
    assert_eq!(e.message(), "Unsupported architecture 'riscv64' for macOS. Only x86_64 and aarch64 are available.");
    let e = detect_asset_name("windows", "aarch64").unwrap_err();
    assert_eq!(e.message(), "Unsupported architecture 'aarch64' for Windows. Only x86_64 is available.");
    let e = detect_asset_name("freebsd", "x86_64").unwrap_err();
    assert!(matches!(e, UpdateError::UnsupportedOs(_)));
    assert_eq!(e.message(), "Unsupported OS 'freebsd'. Only Linux, macOS, and Windows are supported.");
}

#[test]
fn a_release_of_this_version_offers_nothing() {
    let r = release(&format!("v{}", PACKAGE_VERSION), &[("rgytui.zip", "https://x/a")]);
    assert!(upgrade_for_release("rgytui.zip", &r).unwrap().is_none());
}

#[test]
fn a_newer_release_offers_the_first_matching_asset() {
    let r = release("v99.0.0", &[("other", "https://x/o"), ("rgytui.zip", "https://x/1"), ("rgytui.zip", "https://x/2")]);
    let offer = upgrade_for_release("rgytui.zip", &r).unwrap().unwrap();
    assert_eq!(offer, ("v99.0.0".to_string(), "https://x/1".to_string()));
}

#[test]
fn a_newer_release_without_the_asset_is_an_error() {
    let r = release("v99.0.0", &[("other", "https://x/o")]);
    let e = upgrade_for_release("rgytui.zip", &r).unwrap_err();
    assert_eq!(e.message(), "No binary found for your platform (rgytui.zip) in release v99.0.0");
}

#[test]
fn check_latest_reports_the_platform_before_the_fetch() {
    let e = check_latest("plan9", "x86_64", Err("offline".into())).unwrap_err();
    assert!(matches!(e, UpdateError::UnsupportedOs(_)));
    let e = check_latest("linux", "x86_64", Err("offline".into())).unwrap_err();
    assert_eq!(e.message(), "offline");
    let r = release("v99.0.0", &[("rgytui-x86_64-unknown-linux-gnu.tar.gz", "https://x/l")]);
    let offer = check_latest("linux", "x86_64", Ok(r)).unwrap().unwrap();
    assert_eq!(offer.1, "https://x/l");
}

#[test]
fn extract_from_tar_gz_finds_the_binary_by_file_name() {
    let archive = tar_gz(&[("dist/README", b"readme"), ("dist/rgytui", b"ELF-binary")]);
    assert_eq!(extract_from_tar_gz(&archive, "rgytui").unwrap(), b"ELF-binary".to_vec());
    let e = extract_from_tar_gz(&archive, "missing").unwrap_err();
    assert_eq!(e.message(), "Binary 'missing' not found in archive");
}

#[test]
fn extract_from_zip_finds_the_binary_by_file_name() {
    let archive = zip_archive(&[("x/notes.txt", b"n"), ("x/rgytui.exe", b"MZ-binary")]);
    assert_eq!(extract_from_zip(&archive, "rgytui.exe").unwrap(), b"MZ-binary".to_vec());
    let e = extract_from_zip(&archive, "missing.exe").unwrap_err();
    assert_eq!(e.message(), "Binary 'missing.exe' not found in zip archive");
    let e = extract_from_zip(b"not a zip", "rgytui.exe").unwrap_err();
    assert!(e.message().starts_with("Failed to read zip archive: "));
}

#[test]
fn extract_binary_dispatches_on_the_extension() {
    let tgz = tar_gz(&[("rgytui", b"bin")]);
    assert_eq!(extract_binary(&tgz, ".tar.gz", "rgytui").unwrap(), b"bin".to_vec());
    let z = zip_archive(&[("rgytui.exe", b"exe")]);
    assert_eq!(extract_binary(&z, ".zip", "rgytui.exe").unwrap(), b"exe".to_vec());
    let e = extract_binary(&z, ".rar", "rgytui").unwrap_err();
    assert_eq!(e.message(), "Unknown archive format '.rar'");
}

#[test]
fn delayed_replace_script_names_the_files() {
    let s = delayed_replace_script("C:\\bin\\rgytui.new.exe", "C:\\bin\\rgytui.exe", "C:\\bin\\rgytui.update.log");
    assert!(s.starts_with("@echo off\r\ntitle rgytui update\r\n"));
    assert!(s.contains("copy /y \"C:\\bin\\rgytui.new.exe\" \"C:\\bin\\rgytui.exe\" >> \"C:\\bin\\rgytui.update.log\" 2>&1\r\n"));
    assert!(s.contains("if %tries% geq 300 goto deferred\r\n"));
    assert!(s.ends_with(":done\r\ndel \"%~f0\"\r\n"));
}

#[test]
fn extract_from_zip_reads_backslash_separated_names() {
    let archive = zip_archive(&[("x\\notes.txt", b"n"), ("x\\rgytui.exe", b"MZ")]);
    assert_eq!(extract_from_zip(&archive, "rgytui.exe").unwrap(), b"MZ".to_vec());
}
