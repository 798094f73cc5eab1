//! The scripts and answers of `rgytui uninstall`: what counts as a yes, and
//! the Windows clean-up scripts that run after the program exits. Removing
//! files, prompting and starting the scripts are the caller's work.
use vstd::prelude::*;

use crate::text::{owned, str_eq, trim, trimmed};

verus! {

/// Whether an answer to a [y/N] question is a yes: "y" or "Y" once
/// surrounding white space is removed (its lowercase is "y").
pub open spec fn spec_is_yes(answer: Seq<char>) -> bool {
    trimmed(answer) == "y"@ || trimmed(answer) == "Y"@
}

/// Whether an answer to a [y/N] question is a yes (see `spec_is_yes`).
pub fn is_yes_answer(answer: &str) -> (b: bool)
    ensures
        b == spec_is_yes(answer@),
{
    let t = trim(answer);
    str_eq(t.as_str(), "y") || str_eq(t.as_str(), "Y")
}

/// Whether the command line asks to skip the questions: it holds "--yes"
/// or "-y".
pub open spec fn spec_skip_prompt(args: Seq<String>) -> bool {
    exists|i: int| 0 <= i < args.len() && (args[i]@ == "--yes"@ || args[i]@ == "-y"@)
}

/// Whether the command line asks to skip the questions (see
/// `spec_skip_prompt`).
pub fn skip_prompt(args: &Vec<String>) -> (b: bool)
    ensures
        b == spec_skip_prompt(args@),
{
    let n = args.len();
    let mut i: usize = 0;
    while i < n
        invariant
            n == args@.len(),
            i <= n,
            forall|j: int| 0 <= j < i ==> !(args@[j]@ == "--yes"@ || args@[j]@ == "-y"@),
        decreases n - i,
    {
        if str_eq(args[i].as_str(), "--yes") || str_eq(args[i].as_str(), "-y") {
            return true;
        }
        i = i + 1;
    }
    false
}

/// The PowerShell lines that remove yt-dlp: through winget under either of
/// its package ids, else the copy in the program's directory `bin`.
pub open spec fn ytdlp_removal_block(bin: Seq<char>) -> Seq<char> {
    "\nWrite-Host '  :: Removing yt-dlp...'\n$ids = @('yt-dlp.yt-dlp','ytdlp.yt-dlp')\n$removed = $false\nforeach ($id in $ids) {\n    $r = & winget uninstall --id $id --silent --accept-source-agreements 2>&1\n    if ($LASTEXITCODE -eq 0) { $removed = $true; break }\n}\nif (-not $removed -and (Test-Path '"@
        + bin
        + "\\yt-dlp.exe')) {\n    Remove-Item -Force '"@
        + bin
        + "\\yt-dlp.exe'\n    Write-Host '  Removed yt-dlp.exe from bin dir'\n}\n"@
}

/// The PowerShell lines that remove mpv: through winget under either of its
/// package ids, else the copy (directory or executable) in `bin`.
pub open spec fn mpv_removal_block(bin: Seq<char>) -> Seq<char> {
    "\nWrite-Host '  :: Removing mpv...'\n$ids = @('shinchiro.mpv','mpv-player.mpv-CI.MSVC')\n$removed = $false\nforeach ($id in $ids) {\n    $r = & winget uninstall --id $id --silent --accept-source-agreements 2>&1\n    if ($LASTEXITCODE -eq 0) { $removed = $true; break }\n}\nif (-not $removed) {\n    if (Test-Path '"@
        + bin
        + "\\mpv\\mpv.com') { Remove-Item -Recurse -Force '"@
        + bin
        + "\\mpv'; Write-Host '  Removed mpv directory' }\n    if (Test-Path '"@
        + bin
        + "\\mpv.exe') { Remove-Item -Force '"@
        + bin
        + "\\mpv.exe'; Write-Host '  Removed mpv.exe' }\n}\n"@
}

/// The removal lines of the chosen optional dependencies.
pub open spec fn dep_blocks(bin: Seq<char>, remove_ytdlp: bool, remove_mpv: bool) -> Seq<char> {
    (if remove_ytdlp { ytdlp_removal_block(bin) } else { Seq::empty() })
        + (if remove_mpv { mpv_removal_block(bin) } else { Seq::empty() })
}

/// The PowerShell clean-up: wait for the program to exit, remove the
/// binary, the repository, the chosen dependencies and the install
/// directory `home`, then take `bin` (and its mpv directory) off the user's
/// PATH.
pub open spec fn uninstall_ps1_text(bin: Seq<char>, repo: Seq<char>, home: Seq<char>, remove_ytdlp: bool,
    remove_mpv: bool) -> Seq<char>
{
    "\nWrite-Host ':: Waiting for rgytui to exit...'\nStart-Sleep 3\n\nWrite-Host ':: Removing binary...'\nRemove-Item -Force '"@
        + bin
        + "\\rgytui.exe' -ErrorAction SilentlyContinue\n\nWrite-Host ':: Removing repository...'\nRemove-Item -Recurse -Force '"@
        + repo
        + "' -ErrorAction SilentlyContinue\n"@
        + dep_blocks(bin, remove_ytdlp, remove_mpv)
        + "\nRemove-Item -Recurse -Force '"@
        + home
        + "' -ErrorAction SilentlyContinue\n\nWrite-Host ':: Cleaning PATH...'\n$p = [Environment]::GetEnvironmentVariable('Path','User')\n$p = ($p.Split(';') | Where-Object { $_ -ne '"@
        + bin
        + "' -and $_ -ne '"@
        + bin
        + "\\mpv' }) -join ';'\n[Environment]::SetEnvironmentVariable('Path', $p, 'User')\n\nWrite-Host ''\nWrite-Host '✓ rgytui has been uninstalled.'\nWrite-Host '  You may need to restart your terminal for PATH changes.'\nStart-Sleep 3\n"@
}

/// The command wrapper that runs the PowerShell clean-up at `ps1` and
/// deletes itself.
pub open spec fn uninstall_cmd_text(ps1: Seq<char>) -> Seq<char> {
    "@echo off\r\ntitle rgytui uninstall\r\npowershell -NoProfile -ExecutionPolicy RemoteSigned -File \""@
        + ps1 + "\"\r\ndel \"%~f0\"\r\n"@
}

fn ytdlp_block(bin: &str) -> (r: String)
    ensures
        r@ == ytdlp_removal_block(bin@),
{
    owned("\nWrite-Host '  :: Removing yt-dlp...'\n$ids = @('yt-dlp.yt-dlp','ytdlp.yt-dlp')\n$removed = $false\nforeach ($id in $ids) {\n    $r = & winget uninstall --id $id --silent --accept-source-agreements 2>&1\n    if ($LASTEXITCODE -eq 0) { $removed = $true; break }\n}\nif (-not $removed -and (Test-Path '")
        .concat(bin)
        .concat("\\yt-dlp.exe')) {\n    Remove-Item -Force '")
        .concat(bin)
        .concat("\\yt-dlp.exe'\n    Write-Host '  Removed yt-dlp.exe from bin dir'\n}\n")
}

fn mpv_block(bin: &str) -> (r: String)
    ensures
        r@ == mpv_removal_block(bin@),
{
    owned("\nWrite-Host '  :: Removing mpv...'\n$ids = @('shinchiro.mpv','mpv-player.mpv-CI.MSVC')\n$removed = $false\nforeach ($id in $ids) {\n    $r = & winget uninstall --id $id --silent --accept-source-agreements 2>&1\n    if ($LASTEXITCODE -eq 0) { $removed = $true; break }\n}\nif (-not $removed) {\n    if (Test-Path '")
        .concat(bin)
        .concat("\\mpv\\mpv.com') { Remove-Item -Recurse -Force '")
        .concat(bin)
        .concat("\\mpv'; Write-Host '  Removed mpv directory' }\n    if (Test-Path '")
        .concat(bin)
        .concat("\\mpv.exe') { Remove-Item -Force '")
        .concat(bin)
        .concat("\\mpv.exe'; Write-Host '  Removed mpv.exe' }\n}\n")
}

/// The PowerShell clean-up (see `uninstall_ps1_text`).
pub fn uninstall_ps1_script(bin: &str, repo: &str, home: &str, remove_ytdlp: bool, remove_mpv: bool) -> (r: String)
    ensures
        r@ == uninstall_ps1_text(bin@, repo@, home@, remove_ytdlp, remove_mpv),
{
    let mut deps = String::new();
    if remove_ytdlp {
        deps = deps.concat(ytdlp_block(bin).as_str());
    }
    if remove_mpv {
        deps = deps.concat(mpv_block(bin).as_str());
    }
    assert(deps@ =~= dep_blocks(bin@, remove_ytdlp, remove_mpv));
    owned("\nWrite-Host ':: Waiting for rgytui to exit...'\nStart-Sleep 3\n\nWrite-Host ':: Removing binary...'\nRemove-Item -Force '")
        .concat(bin)
        .concat("\\rgytui.exe' -ErrorAction SilentlyContinue\n\nWrite-Host ':: Removing repository...'\nRemove-Item -Recurse -Force '")
        .concat(repo)
        .concat("' -ErrorAction SilentlyContinue\n")
        .concat(deps.as_str())
        .concat("\nRemove-Item -Recurse -Force '")
        .concat(home)
        .concat("' -ErrorAction SilentlyContinue\n\nWrite-Host ':: Cleaning PATH...'\n$p = [Environment]::GetEnvironmentVariable('Path','User')\n$p = ($p.Split(';') | Where-Object { $_ -ne '")
        .concat(bin)
        .concat("' -and $_ -ne '")
        .concat(bin)
        .concat("\\mpv' }) -join ';'\n[Environment]::SetEnvironmentVariable('Path', $p, 'User')\n\nWrite-Host ''\nWrite-Host '✓ rgytui has been uninstalled.'\nWrite-Host '  You may need to restart your terminal for PATH changes.'\nStart-Sleep 3\n")
}

/// The command wrapper of the clean-up (see `uninstall_cmd_text`).
pub fn uninstall_cmd_script(ps1: &str) -> (r: String)
    ensures
        r@ == uninstall_cmd_text(ps1@),
{
    owned("@echo off\r\ntitle rgytui uninstall\r\npowershell -NoProfile -ExecutionPolicy RemoteSigned -File \"")
        .concat(ps1).concat("\"\r\ndel \"%~f0\"\r\n")
}

} // verus!
