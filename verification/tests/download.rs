use tendril_core::platform::TargetOs;
use tendril_core::youtube::download::{
    download_args, failure_detail, flac_output_path, missing_flac_message, output_template, push_tail, watch_url, TAIL_LINES,
};

#[test]
fn urls_and_paths() {
    assert_eq!(watch_url("dQw4w9WgXcQ"), "https://www.youtube.com/watch?v=dQw4w9WgXcQ");
    assert_eq!(flac_output_path("/c/downloads", "abc", TargetOs::Linux), "/c/downloads/abc.flac");
    assert_eq!(output_template("/c/downloads", "abc", TargetOs::Linux), "/c/downloads/abc.%(ext)s");
}

#[test]
fn yt_dlp_arguments() {
    let a = download_args("/d/bin", "/c/downloads/abc.%(ext)s", "https://www.youtube.com/watch?v=abc");
    assert_eq!(
        a,
        vec![
            "-f", "bestaudio", "-x", "--audio-format", "flac", "--audio-quality", "0",
            "--postprocessor-args", "ffmpeg:-ar 44100", "--no-playlist", "--ffmpeg-location", "/d/bin",
            "-o", "/c/downloads/abc.%(ext)s", "https://www.youtube.com/watch?v=abc",
        ]
    );
}

#[test]
fn tail_keeps_the_last_lines() {
    let mut tail: Vec<String> = Vec::new();
    for i in 0..(TAIL_LINES + 5) {
        push_tail(&mut tail, format!("line {i}"));
    }
    assert_eq!(tail.len(), TAIL_LINES);
    assert_eq!(tail[0], "line 5");
    assert_eq!(tail[TAIL_LINES - 1], format!("line {}", TAIL_LINES + 4));
}

#[test]
fn failure_detail_prefers_stderr() {
    let tail = vec!["[youtube] abc: x".to_string(), "ERROR: Video unavailable".to_string()];
    assert_eq!(failure_detail("  boom \n", &tail), "boom");
    assert_eq!(failure_detail(" \n ", &tail), "[youtube] abc: x\nERROR: Video unavailable");
    assert_eq!(
        missing_flac_message(&tail),
        "FLAC file not found after download \u{2014} ffmpeg conversion may have failed.\nLast yt-dlp output:\n[youtube] abc: x\nERROR: Video unavailable"
    );
}
