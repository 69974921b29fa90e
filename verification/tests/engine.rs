use tendril_core::splitter::engine::{demucs_args, missing_stem_message, python_missing_message};
use tendril_core::config::GpuBackend;
use tendril_core::platform::{TargetArch, TargetOs};
use tendril_core::progress::PipelineStage;
use tendril_core::splitter::engine::{
    demucs_outputs, device_arg, failure_message, is_fine_tuned, num_jobs, TqdmTracker,
};

fn fraction(bp: u32) -> f32 {
    bp as f32 / 10000.0
}

#[test]
fn tqdm_non_ft_basic_percentages() {
    let mut t = TqdmTracker::new(false);
    let e = t.feed("  0%|          | 0/10 [00:00<?, ?it/s]").unwrap();
    assert_eq!(e.stage, PipelineStage::Splitting);
    assert_eq!(fraction(e.fraction_bp), 0.0);
    assert!(e.message.contains("0%"));

    let e = t
        .feed(" 60%|████████  | 6/10 [00:30<00:20, 1.2it/s]")
        .unwrap();
    assert!((fraction(e.fraction_bp) - 0.6).abs() < 1e-4);
    assert!(e.message.contains("60%"));

    let e = t
        .feed("100%|██████████| 10/10 [00:50<00:00, 1.2it/s]")
        .unwrap();
    assert!((fraction(e.fraction_bp) - 0.95).abs() < 1e-4);
    assert!(e.message.contains("100%"));
}

#[test]
fn tqdm_ft_advances_pass_on_wraparound() {
    let mut t = TqdmTracker::new(true);

    let e = t.feed(" 80%|████████  | 8/10").unwrap();
    assert!(e.message.contains("pass 1/4"));
    assert!((fraction(e.fraction_bp) - 0.20).abs() < 1e-4);

    let e = t.feed("  5%|          | 0/10").unwrap();
    assert!(e.message.contains("pass 2/4"));
    assert!((fraction(e.fraction_bp) - 0.2625).abs() < 1e-4);

    let e = t.feed(" 95%|██████████|").unwrap();
    assert!(e.message.contains("pass 2/4"));
    assert!((fraction(e.fraction_bp) - 0.4875).abs() < 1e-4);

    let _ = t.feed(" 10%|").unwrap();
    let _ = t.feed(" 90%|").unwrap();
    let e = t.feed("  0%|").unwrap();
    assert!(e.message.contains("pass 4/4"));

    let e = t.feed("  0%|          |").unwrap();
    assert!(e.message.contains("pass 4/4"));
}

#[test]
fn tqdm_ft_does_not_advance_on_small_dip() {
    let mut t = TqdmTracker::new(true);
    let _ = t.feed(" 30%|").unwrap();
    let e = t.feed(" 28%|").unwrap();
    assert!(e.message.contains("pass 1/4"));
}

#[test]
fn tqdm_no_progress_in_chunk_returns_none() {
    let mut t = TqdmTracker::new(false);
    assert!(t.feed("nothing interesting here").is_none());
    assert!(t.feed("Some loaded warning from torch").is_none());
    assert!(t.feed("loaded 50 weights").is_none());
}

#[test]
fn tqdm_picks_last_marker_in_chunk() {
    let mut t = TqdmTracker::new(false);
    let chunk = "\r 10%|█         |\r 20%|██        |\r 30%|███       |";
    let e = t.feed(chunk).unwrap();
    assert!(e.message.contains("30%"));
    assert!((fraction(e.fraction_bp) - 0.30).abs() < 1e-4);
}

#[test]
fn tqdm_handles_zero_and_full_percent() {
    let mut t = TqdmTracker::new(false);
    let e = t.feed("  0%|          |").unwrap();
    assert!(e.message.contains("0%"));
    assert_eq!(fraction(e.fraction_bp), 0.0);

    let e = t
        .feed("100%|██████████| 100/100 [01:00<00:00, 1.67it/s]")
        .unwrap();
    assert!(e.message.contains("100%"));
    assert!((fraction(e.fraction_bp) - 0.95).abs() < 1e-4);
}

#[test]
fn tqdm_messages_are_exact() {
    let mut t = TqdmTracker::new(false);
    let e = t.feed(" 45%|████").unwrap();
    assert_eq!(e.message, "Separating stems... 45%");
    assert_eq!(e.fraction_bp, 4500);

    let mut t = TqdmTracker::new(true);
    let e = t.feed(" 60%|").unwrap();
    assert_eq!(e.message, "Separating stems (pass 1/4)... 60%");
    assert_eq!(e.fraction_bp, 1500);
}

#[test]
fn tqdm_feed_capture_reads_given_digits() {
    let mut t = TqdmTracker::new(false);
    assert!(t.feed_capture(None).is_none());
    assert!(t.feed_capture(Some("x1")).is_none());
    let e = t.feed_capture(Some("7")).unwrap();
    assert_eq!(e.message, "Separating stems... 7%");
    assert_eq!(e.fraction_bp, 700);
}

#[test]
fn fine_tuned_models_are_recognised() {
    assert!(is_fine_tuned("htdemucs_ft"));
    assert!(!is_fine_tuned("htdemucs"));
    assert!(!is_fine_tuned("htdemucs_6s"));
}

#[test]
fn job_count_is_clamped() {
    assert_eq!(num_jobs(None), 1);
    assert_eq!(num_jobs(Some(0)), 1);
    assert_eq!(num_jobs(Some(3)), 3);
    assert_eq!(num_jobs(Some(16)), 4);
}

#[test]
fn device_follows_backend_and_platform() {
    assert_eq!(device_arg(GpuBackend::Auto, TargetOs::MacOs, TargetArch::Aarch64), Some("mps"));
    assert_eq!(device_arg(GpuBackend::Auto, TargetOs::MacOs, TargetArch::X86_64), None);
    assert_eq!(device_arg(GpuBackend::Auto, TargetOs::Linux, TargetArch::X86_64), None);
    assert_eq!(device_arg(GpuBackend::Cuda, TargetOs::Windows, TargetArch::X86_64), Some("cuda"));
    assert_eq!(device_arg(GpuBackend::Cpu, TargetOs::Linux, TargetArch::Aarch64), Some("cpu"));
}

#[test]
fn stem_paths_follow_demucs_layout() {
    let s = demucs_outputs("/tmp/stems/song", "htdemucs", "/music/My Song.flac", TargetOs::Linux);
    assert_eq!(s.vocals, "/tmp/stems/song/htdemucs/My Song/vocals.wav");
    assert_eq!(s.drums, "/tmp/stems/song/htdemucs/My Song/drums.wav");
    assert_eq!(s.bass, "/tmp/stems/song/htdemucs/My Song/bass.wav");
    assert_eq!(s.other, "/tmp/stems/song/htdemucs/My Song/other.wav");
}

#[test]
fn failure_message_keeps_last_fifteen_lines() {
    let stderr: String = (1..=20).map(|i| format!("line {i}\n")).collect();
    let m = failure_message(Some(2), &stderr);
    let expected: Vec<String> = (6..=20).map(|i| format!("line {i}")).collect();
    assert_eq!(m, format!("demucs exited with code 2: {}", expected.join("\n")));
    assert_eq!(failure_message(None, "boom"), "demucs exited with code -1: boom");
}

#[test]
fn demucs_arguments_and_messages() {
    assert_eq!(
        demucs_args("/c/a.flac", "htdemucs_ft", "/c/stems/a", 4, Some("mps")),
        vec!["-m", "demucs.separate", "/c/a.flac", "-n", "htdemucs_ft", "-o", "/c/stems/a", "-j", "4", "-d", "mps"]
    );
    assert_eq!(
        demucs_args("in.wav", "htdemucs", "out", 12, None),
        vec!["-m", "demucs.separate", "in.wav", "-n", "htdemucs", "-o", "out", "-j", "12"]
    );
    assert_eq!(
        python_missing_message("/d/python3"),
        "Python not found at /d/python3 \u{2014} install dependencies first"
    );
    assert_eq!(
        missing_stem_message("drums", "/s/drums.wav"),
        "demucs output not found: drums (expected at /s/drums.wav)"
    );
}

#[test]
fn tracker_passes_never_go_down_over_a_run() {
    let mut t = TqdmTracker::new(true);
    let mut last = 0;
    for chunk in [" 60%|", " 10%|", " 99%|", "  1%|", " 80%|", "  2%|", " 70%|", "  3%|", "  0%|", "junk"] {
        if let Some(e) = t.feed(chunk) {
            assert_eq!(e.stage, PipelineStage::Splitting);
            assert!(e.fraction_bp <= 9500);
            let k: u32 = e.message["Separating stems (pass ".len()..].chars().next().unwrap().to_digit(10).unwrap();
            assert!((1..=4).contains(&k) && k >= last);
            last = k;
        }
    }
    assert_eq!(last, 4);
}

#[test]
fn windows_stem_paths_follow_demucs_layout() {
    let s = demucs_outputs("C:\\cache\\stems\\My Song", "htdemucs", "C:\\Users\\me\\My Song.flac", TargetOs::Windows);
    assert_eq!(s.vocals, "C:\\cache\\stems\\My Song\\htdemucs\\My Song\\vocals.wav");
    assert_eq!(s.other, "C:\\cache\\stems\\My Song\\htdemucs\\My Song\\other.wav");
}
