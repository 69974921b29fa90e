use std::path::{Path, PathBuf};
use tendril_core::paths::{file_name, file_stem, join_path};
use tendril_core::platform::TargetOs;

const SAMPLES: [&str; 16] = [
    "", "/", ".", "..", "a", "a/", "a/.", "./a", "/a/b.c", "/a/b.tar.gz", "dir/.bashrc",
    "x/y/..", "song.", "...", "//double//slash//f.txt", "/music/My Song.flac",
];

#[test]
fn file_name_agrees_with_std() {
    for p in SAMPLES {
        let expected = Path::new(p).file_name().map(|s| s.to_string_lossy().to_string());
        assert_eq!(file_name(p, TargetOs::Linux), expected, "file_name of {p:?}");
    }
}

#[test]
fn file_stem_agrees_with_std() {
    for p in SAMPLES {
        let expected = Path::new(p).file_stem().map(|s| s.to_string_lossy().to_string());
        assert_eq!(file_stem(p, TargetOs::Linux), expected, "file_stem of {p:?}");
    }
}

#[test]
fn join_agrees_with_std() {
    for base in ["", "/", "/a", "/a/", "rel"] {
        for comp in ["b", "b/c.wav", "/abs", ""] {
            let expected = PathBuf::from(base).join(comp).to_string_lossy().to_string();
            assert_eq!(join_path(base, comp, TargetOs::Linux), expected, "join of {base:?} and {comp:?}");
        }
    }
}

#[test]
fn join_examples() {
    assert_eq!(join_path("/out", "Song (x)", TargetOs::Linux), "/out/Song (x)");
    assert_eq!(join_path("/out/", "a.wav", TargetOs::Linux), "/out/a.wav");
    assert_eq!(join_path("/out", "/tmp/a", TargetOs::Linux), "/tmp/a");
}

fn some(s: &str) -> Option<String> {
    Some(s.to_string())
}

#[test]
fn windows_paths_use_both_separators_and_drive_prefixes() {
    let w = TargetOs::Windows;
    assert_eq!(file_name("C:\\Users\\me\\Music\\song.flac", w), some("song.flac"));
    assert_eq!(file_stem("C:\\Users\\me\\Music\\song.flac", w), some("song"));
    assert_eq!(file_name("C:/Users/me/My Song.mp3", w), some("My Song.mp3"));
    assert_eq!(file_name("a\\b/c.txt", w), some("c.txt"));
    assert_eq!(file_name("C:song.flac", w), some("song.flac"));
    assert_eq!(file_name("C:\\", w), None);
    assert_eq!(file_name("C:", w), None);
    assert_eq!(file_name("C:\\music\\..", w), None);
    // On macOS and Linux a backslash is an ordinary character.
    assert_eq!(file_name("a\\b.flac", TargetOs::Linux), some("a\\b.flac"));
    assert_eq!(file_stem("C:\\x\\y.z", TargetOs::MacOs), some("C:\\x\\y"));
}

#[test]
fn windows_join_inserts_backslash_and_keeps_drives() {
    let w = TargetOs::Windows;
    assert_eq!(join_path("C:\\out", "Song (x)", w), "C:\\out\\Song (x)");
    assert_eq!(join_path("C:\\out\\", "a.wav", w), "C:\\out\\a.wav");
    assert_eq!(join_path("C:\\out/", "a.wav", w), "C:\\out/a.wav");
    assert_eq!(join_path("C:", "a", w), "C:a");
    assert_eq!(join_path("", "a", w), "a");
    assert_eq!(join_path("C:\\x", "\\y", w), "C:\\y");
    assert_eq!(join_path("x", "\\y", w), "\\y");
    assert_eq!(join_path("C:\\x", "D:\\y", w), "D:\\y");
    assert_eq!(join_path("C:\\x", "\\\\srv\\share", w), "\\\\srv\\share");
}
