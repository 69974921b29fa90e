use std::io::{Cursor, Write};

use tendril_core::deps::archive::{bin_files, select_bin_entries};

fn zip_of(entries: &[(&str, &[u8])]) -> Vec<u8> {
    let mut w = zip::ZipWriter::new(Cursor::new(Vec::new()));
    for (name, data) in entries {
        w.start_file(*name, zip::write::SimpleFileOptions::default()).unwrap();
        w.write_all(data).unwrap();
    }
    w.finish().unwrap().into_inner()
}

#[test]
fn only_files_directly_under_bin_are_kept() {
    let bytes = zip_of(&[
        ("ffmpeg-n7.1-win64-lgpl-shared-7.1/LICENSE.txt", b"license"),
        ("ffmpeg-n7.1-win64-lgpl-shared-7.1/bin/ffmpeg.exe", b"ffmpeg"),
        ("ffmpeg-n7.1-win64-lgpl-shared-7.1/bin/avutil-59.dll", b"dll"),
        ("ffmpeg-n7.1-win64-lgpl-shared-7.1/bin/sub/x.dll", b"nested"),
        ("ffmpeg-n7.1-win64-lgpl-shared-7.1/doc/ffmpeg.html", b"doc"),
    ]);
    let files = bin_files(&bytes).unwrap();
    let got: Vec<(&str, &[u8])> = files.iter().map(|(n, d)| (n.as_str(), d.as_slice())).collect();
    assert_eq!(got, vec![("ffmpeg.exe", &b"ffmpeg"[..]), ("avutil-59.dll", &b"dll"[..])]);
}

#[test]
fn unreadable_archive_is_an_error() {
    assert!(bin_files(b"not a zip archive").is_err());
    assert!(bin_files(&zip_of(&[])).unwrap().is_empty());
}

#[test]
fn bin_selection_over_names() {
    let names: Vec<String> = [
        "ffmpeg-7.1/LICENSE.txt",
        "ffmpeg-7.1/bin/",
        "ffmpeg-7.1/bin/ffprobe.exe",
        "ffmpeg-7.1/bin/sub/x.dll",
        "other/bin/avcodec-61.dll",
    ]
    .iter()
    .map(|s| s.to_string())
    .collect();
    let sel = select_bin_entries(&names);
    assert_eq!(sel, vec![(2, "ffprobe.exe".to_string()), (4, "avcodec-61.dll".to_string())]);
    assert!(select_bin_entries(&vec![]).is_empty());
}
