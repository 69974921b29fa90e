//! Codec arguments of each output format.
use vstd::prelude::*;
use crate::config::{extension_of, OutputFormat};
use crate::platform::TargetOs;
use crate::paths::{file_stem, join_path, path_file_stem, path_join};
use crate::text::push_str;

verus! {

/// The ffmpeg codec arguments of each output format.
pub open spec fn codec_args_of(format: OutputFormat) -> Seq<Seq<char>> {
    match format {
        OutputFormat::Wav => Seq::<Seq<char>>::empty(),
        OutputFormat::Flac => seq!["-c:a"@, "flac"@, "-compression_level"@, "0"@],
        OutputFormat::Mp3 => seq!["-c:a"@, "libmp3lame"@, "-q:a"@, "0"@],
        OutputFormat::Aac => seq!["-c:a"@, "aac"@, "-b:a"@, "320k"@],
    }
}

/// WAV is written as ffmpeg's default PCM with no codec arguments; every
/// other format names its encoder right after `-c:a`, and no two formats
/// share an encoder.
pub proof fn each_format_has_its_own_encoder(f: OutputFormat, g: OutputFormat)
    ensures
        codec_args_of(f).len() == 0 <==> f == OutputFormat::Wav,
        f != OutputFormat::Wav ==> codec_args_of(f).len() == 4 && codec_args_of(f)[0] == "-c:a"@,
        f != OutputFormat::Wav && g != OutputFormat::Wav && f != g ==> codec_args_of(f)[1]
            != codec_args_of(g)[1],
{
    reveal_strlit("flac");
    reveal_strlit("libmp3lame");
    reveal_strlit("aac");
    assert(codec_args_of(OutputFormat::Flac)[1] == "flac"@);
    assert(codec_args_of(OutputFormat::Mp3)[1] == "libmp3lame"@);
    assert(codec_args_of(OutputFormat::Aac)[1] == "aac"@);
    assert("flac"@.len() != "libmp3lame"@.len());
    assert("flac"@.len() != "aac"@.len());
    assert("libmp3lame"@.len() != "aac"@.len());
}

/// Codec arguments for each output format.
pub fn codec_args(format: OutputFormat) -> (a: Vec<&'static str>)
    ensures
        a@.map_values(|s: &str| s@) == codec_args_of(format),
{
    let a: Vec<&'static str> = match format {
        OutputFormat::Wav => Vec::new(),
        OutputFormat::Flac => vec!["-c:a", "flac", "-compression_level", "0"],
        OutputFormat::Mp3 => vec!["-c:a", "libmp3lame", "-q:a", "0"],
        OutputFormat::Aac => vec!["-c:a", "aac", "-b:a", "320k"],
    };
    assert(a@.map_values(|s: &str| s@) =~= codec_args_of(format));
    a
}

/// Where a converted file goes: `<output_dir>/<input stem>.<ext>`, with
/// `output` as the stem when the input names no file.
pub open spec fn converted_path_of(input: Seq<char>, format: OutputFormat, output_dir: Seq<char>, os: TargetOs) -> Seq<char> {
    let stem = match path_file_stem(input, os) {
        Some(s) => s,
        None => "output"@,
    };
    path_join(output_dir, stem + "."@ + extension_of(format), os)
}

/// The path a conversion of `input` into `output_dir` writes.
pub fn converted_path(input: &str, format: OutputFormat, output_dir: &str, os: TargetOs) -> (p: String)
    ensures
        p@ == converted_path_of(input@, format, output_dir@, os),
{
    let mut name = match file_stem(input, os) {
        Some(s) => s,
        None => String::from_str("output"),
    };
    push_str(&mut name, ".");
    push_str(&mut name, format.extension());
    join_path(output_dir, name.as_str(), os)
}

} // verus!
