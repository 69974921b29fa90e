//! The managed yt-dlp install.
use vstd::prelude::*;
use crate::platform::TargetOs;
use crate::text::{decimal, push_decimal, push_str};

verus! {

/// The yt-dlp release asset built for each operating system.
pub open spec fn ytdlp_asset(os: TargetOs) -> Seq<char> {
    match os {
        TargetOs::MacOs => "yt-dlp_macos"@,
        TargetOs::Windows => "yt-dlp.exe"@,
        TargetOs::Linux => "yt-dlp_linux"@,
    }
}

/// Name of the yt-dlp release asset for `os`.
pub fn ytdlp_asset_name(os: TargetOs) -> (n: &'static str)
    ensures
        n@ == ytdlp_asset(os),
{
    match os {
        TargetOs::MacOs => "yt-dlp_macos",
        TargetOs::Windows => "yt-dlp.exe",
        TargetOs::Linux => "yt-dlp_linux",
    }
}

/// Smallest download accepted as a real yt-dlp binary (the real one is
/// about 30 MB).
pub const MIN_YTDLP_BYTES: u64 = 1_000_000;

/// Smallest download accepted as a real ffmpeg binary.
pub const MIN_FFMPEG_BYTES: u64 = 100_000;

/// The refusal text for a download of `len` bytes that is too small to be
/// the tool.
pub open spec fn too_small_text(tool: Seq<char>, len: nat) -> Seq<char> {
    tool + " download too small ("@ + decimal(len) + " bytes); aborting update"@
}

/// Accept a downloaded binary of `len` bytes when it is at least `min`
/// bytes long; otherwise say why the update is aborted.
pub fn check_download_size(tool: &str, len: u64, min: u64) -> (r: Result<(), String>)
    ensures
        len >= min ==> r is Ok,
        len < min ==> (r matches Err(m) && m@ == too_small_text(tool@, len as nat)),
{
    if len >= min {
        return Ok(());
    }
    let mut m = String::new();
    push_str(&mut m, tool);
    push_str(&mut m, " download too small (");
    push_decimal(&mut m, len);
    push_str(&mut m, " bytes); aborting update");
    Err(m)
}

/// The refusal text when a downloaded binary fails its version check.
pub open spec fn check_failed_text(tool: Seq<char>, flag: Seq<char>, stderr: Seq<char>) -> Seq<char> {
    "downloaded "@ + tool + " failed "@ + flag + " check: "@ + stderr
}

/// The refusal message when a downloaded binary fails `<tool> <flag>`.
pub fn check_failed_message(tool: &str, flag: &str, stderr: &str) -> (m: String)
    ensures
        m@ == check_failed_text(tool@, flag@, stderr@),
{
    let mut m = String::new();
    push_str(&mut m, "downloaded ");
    push_str(&mut m, tool);
    push_str(&mut m, " failed ");
    push_str(&mut m, flag);
    push_str(&mut m, " check: ");
    push_str(&mut m, stderr);
    m
}

} // verus!
