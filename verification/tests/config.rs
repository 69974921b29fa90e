use tendril_core::audio::convert::{codec_args, converted_path};
use tendril_core::config::{GpuBackend, ModelVariant, OutputFormat};
use tendril_core::platform::TargetOs;
use tendril_core::error::{AudioError, PipelineError, SplitterError, YoutubeError};

#[test]
fn format_extensions_and_codecs() {
    assert_eq!(OutputFormat::Wav.extension(), "wav");
    assert_eq!(OutputFormat::Flac.extension(), "flac");
    assert_eq!(OutputFormat::Mp3.extension(), "mp3");
    assert_eq!(OutputFormat::Aac.extension(), "m4a");
    assert!(codec_args(OutputFormat::Wav).is_empty());
    assert_eq!(codec_args(OutputFormat::Flac), vec!["-c:a", "flac", "-compression_level", "0"]);
    assert_eq!(codec_args(OutputFormat::Mp3), vec!["-c:a", "libmp3lame", "-q:a", "0"]);
    assert_eq!(codec_args(OutputFormat::Aac), vec!["-c:a", "aac", "-b:a", "320k"]);
    assert_eq!(converted_path("/stems/vocals.wav", OutputFormat::Mp3, "/out/Song", TargetOs::Linux), "/out/Song/vocals.mp3");
    assert_eq!(converted_path("/", OutputFormat::Flac, "/out", TargetOs::Linux), "/out/output.flac");
    assert_eq!(
        converted_path("C:\\cache\\stems\\vocals.wav", OutputFormat::Flac, "D:\\Music\\song", TargetOs::Windows),
        "D:\\Music\\song\\vocals.flac"
    );
}

#[test]
fn model_names() {
    assert_eq!(ModelVariant::HtdemucsFineTuned.model_name(), "htdemucs_ft");
    assert_eq!(ModelVariant::Htdemucs.model_name(), "htdemucs");
}

#[test]
fn settings_indices_round_trip() {
    for f in [OutputFormat::Wav, OutputFormat::Flac, OutputFormat::Mp3, OutputFormat::Aac] {
        assert_eq!(OutputFormat::from_settings_index(f.settings_index()), f);
    }
    assert_eq!(OutputFormat::from_settings_index(99), OutputFormat::Flac);
    for m in [ModelVariant::Htdemucs, ModelVariant::HtdemucsFineTuned] {
        assert_eq!(ModelVariant::from_settings_index(m.settings_index()), m);
    }
    for b in [GpuBackend::Auto, GpuBackend::Cpu] {
        assert_eq!(GpuBackend::from_settings_index(b.settings_index()), b);
    }
    assert_eq!(GpuBackend::Cuda.settings_index(), 0);
    assert_eq!(GpuBackend::from_settings_index(7), GpuBackend::Auto);
}

#[test]
fn error_messages() {
    assert_eq!(YoutubeError::Search("x".to_string()).message(), "search failed: x");
    assert_eq!(
        YoutubeError::Process { code: -2, stderr: "bad".to_string() }.message(),
        "yt-dlp process exited with code -2: bad"
    );
    assert_eq!(
        AudioError::Conversion { message: "m".to_string() }.message(),
        "ffmpeg conversion failed: m"
    );
    assert_eq!(SplitterError::Cancelled.message(), "separation cancelled");
    assert_eq!(
        PipelineError::StageFailed { stage: "split".to_string(), message: "m".to_string() }.message(),
        "pipeline stage failed: split \u{2014} m"
    );
    assert_eq!(PipelineError::JobNotFound { job_id: 42 }.message(), "job 42 not found");
}
