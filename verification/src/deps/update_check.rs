//! The upstream versions the update banner compares against.
use vstd::prelude::*;
use crate::deps::ffmpeg::{strip_leading_b, FFMPEG_STATIC_TAG};
use crate::platform::TargetOs;
use crate::deps::{apply_latest, ffmpeg_needs_check, first_named, latest_applied};
use crate::deps::status::{opt_view, DepState, DependencyStatus};
use crate::text::{chars_of, string_of_range};

verus! {

/// The latest ffmpeg version to report: what would actually be installed.
/// On macOS/Linux that is the pinned ffmpeg-static tag without its leading
/// `b` (the form the installed binary prints); on Windows nothing, since
/// the rolling build is tagged `latest` and could never match.
pub fn check_ffmpeg_latest(os: TargetOs) -> (r: Option<String>)
    ensures
        os == TargetOs::Windows ==> r is None,
        os != TargetOs::Windows ==> (r matches Some(v) && v@ == strip_leading_b(FFMPEG_STATIC_TAG@)),
{
    if os == TargetOs::Windows {
        return None;
    }
    let v = chars_of(FFMPEG_STATIC_TAG);
    let mut i: usize = 0;
    assert(v@.skip(0) =~= v@);
    while i < v.len() && v[i] == 'b'
        invariant
            i <= v.len(),
            v@ == FFMPEG_STATIC_TAG@,
            strip_leading_b(v@) == strip_leading_b(v@.skip(i as int)),
        decreases v.len() - i,
    {
        assert(v@.skip(i as int).drop_first() =~= v@.skip(i + 1));
        i = i + 1;
    }
    let r = string_of_range(&v, i, v.len());
    assert(v@.subrange(i as int, v.len() as int) =~= v@.skip(i as int));
    Some(r)
}


/// The string at JSON pointer `pointer` in the JSON document `bytes`, as
/// `serde_json` reads it; none when the document does not parse, nothing
/// stands there, or what stands there is not a string.
pub uninterp spec fn json_text_at(bytes: Seq<u8>, pointer: Seq<char>) -> Option<Seq<char>>;

/// Parses `bytes` with `serde_json::from_slice` into a `serde_json::Value`,
/// looks up `pointer` with `Value::pointer` and reads it with
/// `Value::as_str`. The contract names the outcome
/// `json_text_at(bytes, pointer)` and states nothing more of it.
#[verifier::external_body]
fn json_string_at(bytes: &[u8], pointer: &str) -> (r: Option<String>)
    ensures
        match r {
            Some(s) => json_text_at(bytes@, pointer@) == Some(s@),
            None => json_text_at(bytes@, pointer@) is None,
        },
{
    let v: serde_json::Value = serde_json::from_slice(bytes).ok()?;
    v.pointer(pointer)?.as_str().map(String::from)
}

/// The latest version a PyPI project document names: the text of its
/// `info.version` field.
pub fn pypi_latest_version(body: &[u8]) -> (r: Option<String>)
    ensures
        match r {
            Some(s) => json_text_at(body@, "/info/version"@) == Some(s@),
            None => json_text_at(body@, "/info/version"@) is None,
        },
{
    json_string_at(body, "/info/version")
}


/// Whether `after` is `before` with `latest` applied to the first status
/// named `name` when there is a latest version, and `before` otherwise.
pub open spec fn maybe_applied(
    before: Seq<DependencyStatus>,
    after: Seq<DependencyStatus>,
    name: Seq<char>,
    latest: Option<Seq<char>>,
) -> bool {
    match latest {
        Some(l) => latest_applied(before, after, name, l),
        None => after == before,
    }
}

/// The ffmpeg version an update check compares against on `os` (see
/// `check_ffmpeg_latest`).
pub open spec fn ffmpeg_latest_of(os: TargetOs) -> Option<Seq<char>> {
    if os == TargetOs::Windows {
        None
    } else {
        Some(strip_leading_b(FFMPEG_STATIC_TAG@))
    }
}

/// Whether a status list asks for the upstream ffmpeg check (see
/// `ffmpeg_needs_check`).
pub open spec fn ffmpeg_check_wanted(statuses: Seq<DependencyStatus>) -> bool {
    match first_named(statuses, "ffmpeg"@) {
        Some(k) => statuses[k].state == DepState::Installed,
        None => false,
    }
}

/// Apply the outcome of an update check to the statuses: the latest demucs
/// and yt-dlp versions found upstream, in that order, then the ffmpeg
/// version that would be installed on `os`, which is looked at only when
/// ffmpeg was a managed install before the check.
pub fn apply_update_checks(
    statuses: &mut Vec<DependencyStatus>,
    demucs_latest: Option<String>,
    ytdlp_latest: Option<String>,
    os: TargetOs,
)
    ensures
        exists|s1: Seq<DependencyStatus>, s2: Seq<DependencyStatus>|
            maybe_applied(old(statuses)@, s1, "demucs"@, opt_view(demucs_latest)) && maybe_applied(
                s1,
                s2,
                "yt-dlp"@,
                opt_view(ytdlp_latest),
            ) && maybe_applied(
                s2,
                final(statuses)@,
                "ffmpeg"@,
                if ffmpeg_check_wanted(old(statuses)@) {
                    ffmpeg_latest_of(os)
                } else {
                    None
                },
            ),
{
    let check_ffmpeg = ffmpeg_needs_check(statuses);
    let ghost s0 = statuses@;
    match &demucs_latest {
        Some(l) => apply_latest(statuses, "demucs", l.as_str()),
        None => {},
    }
    let ghost s1 = statuses@;
    match &ytdlp_latest {
        Some(l) => apply_latest(statuses, "yt-dlp", l.as_str()),
        None => {},
    }
    let ghost s2 = statuses@;
    let ffmpeg_latest = if check_ffmpeg {
        check_ffmpeg_latest(os)
    } else {
        None
    };
    match &ffmpeg_latest {
        Some(l) => apply_latest(statuses, "ffmpeg", l.as_str()),
        None => {},
    }
    assert(maybe_applied(s0, s1, "demucs"@, opt_view(demucs_latest)));
    assert(maybe_applied(s1, s2, "yt-dlp"@, opt_view(ytdlp_latest)));
}


} // verus!
