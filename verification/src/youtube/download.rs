//! The decisions around a yt-dlp download: its URL, arguments and output
//! paths, the tail of output it keeps, and the detail it reports on
//! failure.
use vstd::prelude::*;
use crate::paths::{join_path, path_join};
use crate::platform::TargetOs;
use crate::splitter::engine::last_n;
use crate::text::{chars_of, join_seqs, push_joined, push_str, string_of, trim, trim_str, views};

verus! {

/// How many trailing output lines to retain for diagnostics when yt-dlp
/// fails but writes its error to stdout instead of stderr.
pub const TAIL_LINES: usize = 40;

/// The watch URL of a video.
pub open spec fn watch_url_of(video_id: Seq<char>) -> Seq<char> {
    "https://www.youtube.com/watch?v="@ + video_id
}

/// The watch URL of a video.
pub fn watch_url(video_id: &str) -> (u: String)
    ensures
        u@ == watch_url_of(video_id@),
{
    let mut u = String::new();
    push_str(&mut u, "https://www.youtube.com/watch?v=");
    push_str(&mut u, video_id);
    u
}

/// The FLAC file a download produces: `<output_dir>/<id>.flac`.
pub fn flac_output_path(output_dir: &str, video_id: &str, os: TargetOs) -> (p: String)
    ensures
        p@ == path_join(output_dir@, video_id@ + ".flac"@, os),
{
    let mut name = String::new();
    push_str(&mut name, video_id);
    push_str(&mut name, ".flac");
    join_path(output_dir, name.as_str(), os)
}

/// The yt-dlp output template: `<output_dir>/<id>.%(ext)s`.
pub fn output_template(output_dir: &str, video_id: &str, os: TargetOs) -> (p: String)
    ensures
        p@ == path_join(output_dir@, video_id@ + ".%(ext)s"@, os),
{
    let mut name = String::new();
    push_str(&mut name, video_id);
    push_str(&mut name, ".%(ext)s");
    join_path(output_dir, name.as_str(), os)
}

/// The yt-dlp arguments of a download: best audio, extracted to FLAC at
/// 44.1 kHz, no playlists, using the given ffmpeg, to the template.
pub open spec fn download_args_of(ffmpeg_dir: Seq<char>, template: Seq<char>, url: Seq<char>) -> Seq<
    Seq<char>,
> {
    seq![
        "-f"@,
        "bestaudio"@,
        "-x"@,
        "--audio-format"@,
        "flac"@,
        "--audio-quality"@,
        "0"@,
        "--postprocessor-args"@,
        "ffmpeg:-ar 44100"@,
        "--no-playlist"@,
        "--ffmpeg-location"@,
        ffmpeg_dir,
        "-o"@,
        template,
        url,
    ]
}

/// The yt-dlp arguments of a download.
pub fn download_args(ffmpeg_dir: &str, template: &str, url: &str) -> (a: Vec<String>)
    ensures
        a@.map_values(|s: String| s@) == download_args_of(ffmpeg_dir@, template@, url@),
{
    let mut a: Vec<String> = Vec::new();
    a.push(String::from_str("-f"));
    a.push(String::from_str("bestaudio"));
    a.push(String::from_str("-x"));
    a.push(String::from_str("--audio-format"));
    a.push(String::from_str("flac"));
    a.push(String::from_str("--audio-quality"));
    a.push(String::from_str("0"));
    a.push(String::from_str("--postprocessor-args"));
    a.push(String::from_str("ffmpeg:-ar 44100"));
    a.push(String::from_str("--no-playlist"));
    a.push(String::from_str("--ffmpeg-location"));
    a.push(String::from_str(ffmpeg_dir));
    a.push(String::from_str("-o"));
    a.push(String::from_str(template));
    a.push(String::from_str(url));
    assert(a@.map_values(|s: String| s@) =~= download_args_of(ffmpeg_dir@, template@, url@));
    a
}

/// Keep a line of output in the retained tail: the line is appended and
/// the oldest dropped once more than `TAIL_LINES` are held.
pub fn push_tail(tail: &mut Vec<String>, line: String)
    requires
        old(tail)@.len() <= TAIL_LINES,
    ensures
        final(tail)@ == last_n(old(tail)@.push(line), TAIL_LINES as nat),
        final(tail)@.len() <= TAIL_LINES,
{
    tail.push(line);
    if tail.len() > TAIL_LINES {
        tail.remove(0);
        assert(final(tail)@ =~= old(tail)@.push(line).skip(1));
    }
}

/// The text a sequence of lines joined with newlines reads as.
pub open spec fn joined_lines(lines: Seq<String>) -> Seq<char> {
    join_seqs(lines.map_values(|s: String| s@), "\n"@)
}

fn join_lines(lines: &Vec<String>) -> (r: String)
    ensures
        r@ == joined_lines(lines@),
{
    let mut pieces: Vec<Vec<char>> = Vec::new();
    let mut i: usize = 0;
    while i < lines.len()
        invariant
            i <= lines.len(),
            views(pieces@) == lines@.take(i as int).map_values(|s: String| s@),
        decreases lines.len() - i,
    {
        let ghost before = views(pieces@);
        pieces.push(chars_of(lines[i].as_str()));
        assert(views(pieces@) =~= before.push(lines@[i as int]@));
        i = i + 1;
        assert(lines@.take(i as int).map_values(|s: String| s@) =~= before.push(lines@[i - 1]@));
    }
    assert(lines@.take(lines.len() as int) =~= lines@);
    let mut r = String::new();
    push_joined(&mut r, &pieces, 0, pieces.len(), "\n");
    assert(views(pieces@).subrange(0, pieces.len() as int) =~= views(pieces@));
    r
}

/// What a failed download reports: its stderr, or the tail of its stdout
/// when stderr holds nothing but whitespace; trimmed either way.
pub open spec fn failure_detail_of(stderr: Seq<char>, stdout_tail: Seq<String>) -> Seq<char> {
    if trim(stderr).len() == 0 {
        trim(joined_lines(stdout_tail))
    } else {
        trim(stderr)
    }
}

/// The detail a failed download reports.
pub fn failure_detail(stderr: &str, stdout_tail: &Vec<String>) -> (d: String)
    ensures
        d@ == failure_detail_of(stderr@, stdout_tail@),
{
    let t = trim_str(stderr);
    if t.is_empty() {
        let joined = join_lines(stdout_tail);
        let v = chars_of(trim_str(joined.as_str()));
        string_of(&v)
    } else {
        let v = chars_of(t);
        string_of(&v)
    }
}

/// The message when yt-dlp succeeded but left no FLAC file behind.
pub open spec fn missing_flac_text(stdout_tail: Seq<String>) -> Seq<char> {
    "FLAC file not found after download \u{2014} ffmpeg conversion may have failed.\nLast yt-dlp output:\n"@
        + joined_lines(stdout_tail)
}

/// The message when yt-dlp succeeded but left no FLAC file behind.
pub fn missing_flac_message(stdout_tail: &Vec<String>) -> (m: String)
    ensures
        m@ == missing_flac_text(stdout_tail@),
{
    let mut m = String::new();
    push_str(
        &mut m,
        "FLAC file not found after download \u{2014} ffmpeg conversion may have failed.\nLast yt-dlp output:\n",
    );
    let joined = join_lines(stdout_tail);
    push_str(&mut m, joined.as_str());
    m
}

} // verus!
