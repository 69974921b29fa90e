use tendril_core::pipeline::orchestrator::failure_event;
use tendril_core::config::{GpuBackend, OutputFormat};
use tendril_core::error::{PipelineError, SplitterError};
use tendril_core::pipeline::job::{output_folder_name, JobSource};
use tendril_core::pipeline::orchestrator::{Next, Phase, PipelineContext, PipelineRun, Step, Work, WorkResult};
use tendril_core::pipeline::queue::JobQueue;
use tendril_core::platform::TargetOs;
use tendril_core::progress::PipelineStage;
use tendril_core::splitter::engine::StemOutput;

fn yt(id: &str, title: &str) -> JobSource {
    JobSource::Youtube { video_id: id.to_string(), title: title.to_string() }
}

fn local(path: &str) -> JobSource {
    JobSource::LocalFile { path: path.to_string() }
}

#[test]
fn queue_hands_out_increasing_ids_in_fifo_order() {
    let mut q: JobQueue<()> = JobQueue::new();
    assert!(q.is_empty());
    assert_eq!(q.next_job_id(), 1);
    let a = q.enqueue(yt("a", "A"), ());
    let b = q.enqueue(yt("b", "B"), ());
    let c = q.enqueue(local("/m/c.flac"), ());
    assert_eq!((a, b, c), (1, 2, 3));
    assert_eq!(q.len(), 3);
    let ids: Vec<u64> = q.as_slice().iter().map(|j| j.id).collect();
    assert_eq!(ids, vec![1, 2, 3]);
    let first = q.pop_front().unwrap();
    assert_eq!(first.id, 1);
    assert_eq!(q.len(), 2);
}

#[test]
fn queue_remove_and_find() {
    let mut q: JobQueue<u8> = JobQueue::new();
    q.enqueue(yt("a", "A"), 10);
    q.enqueue(yt("b", "B"), 20);
    q.enqueue(yt("c", "C"), 30);
    assert!(q.remove(2));
    assert!(!q.remove(2));
    assert!(!q.remove(99));
    assert!(q.find(2).is_none());
    assert_eq!(q.find(3).unwrap().handles, 30);
    let ids: Vec<u64> = q.as_slice().iter().map(|j| j.id).collect();
    assert_eq!(ids, vec![1, 3]);
    // Ids are never reused after a removal.
    assert_eq!(q.enqueue(yt("d", "D"), 40), 4);
}

#[test]
fn pop_front_on_empty_queue_is_none() {
    let mut q: JobQueue<()> = JobQueue::new();
    assert!(q.pop_front().is_none());
    assert_eq!(q.next_job_id(), 1);
}

#[test]
fn job_source_names() {
    let s = yt("dQw4w9WgXcQ", "Rick Astley - Never Gonna Give You Up");
    assert_eq!(s.display_name(TargetOs::Linux), "Rick Astley - Never Gonna Give You Up");
    assert_eq!(s.video_id(), Some("dQw4w9WgXcQ"));
    assert_eq!(s.thumbnail_key(), "dQw4w9WgXcQ");
    let l = local("/music/Some Song.mp3");
    assert_eq!(l.display_name(TargetOs::Linux), "Some Song");
    assert_eq!(l.video_id(), None);
    assert_eq!(l.thumbnail_key(), "/music/Some Song.mp3");
    assert_eq!(local("/").display_name(TargetOs::Linux), "unknown");
}

#[test]
fn output_folder_names_are_sanitized() {
    assert_eq!(output_folder_name("AC/DC: Back?", Some("x1")), "ac_dc_ back_ (x1)");
    assert_eq!(output_folder_name("a<b>c|d\"e*f\\g", None), "a_b_c_d_e_f_g");
    assert_eq!(output_folder_name("Plain", None), "plain");
    assert_eq!(output_folder_name("AC/DC: Thunder?", Some("v1d")), "ac_dc_ thunder_ (v1d)");
    assert_eq!(output_folder_name("ÉTÉ", None), "été");
}

fn ctx(preserve: bool, instrumental: bool) -> PipelineContext {
    PipelineContext {
        ytdlp_bin: "/d/bin/yt-dlp".to_string(),
        ffmpeg_bin: "/d/bin/ffmpeg".to_string(),
        ffmpeg_dir: "/d/bin".to_string(),
        python_bin: "/d/demucs/python/bin/python3".to_string(),
        models_dir: "/d/models".to_string(),
        cache_dir: "/c".to_string(),
        output_dir: "/out".to_string(),
        output_format: OutputFormat::Wav,
        gpu_backend: GpuBackend::Auto,
        model_name: "htdemucs".to_string(),
        preserve_full_mix: preserve,
        create_instrumental: instrumental,
        os: TargetOs::Linux,
    }
}

fn messages(s: &Step) -> Vec<(PipelineStage, u32, String)> {
    s.progress.iter().map(|e| (e.stage, e.fraction_bp, e.message.clone())).collect()
}

fn stems() -> StemOutput {
    StemOutput {
        vocals: "/c/stems/x/htdemucs/x/vocals.wav".to_string(),
        drums: "/c/stems/x/htdemucs/x/drums.wav".to_string(),
        bass: "/c/stems/x/htdemucs/x/bass.wav".to_string(),
        other: "/c/stems/x/htdemucs/x/other.wav".to_string(),
    }
}

#[test]
fn youtube_run_walks_every_phase() {
    let c = ctx(true, true);
    let (mut run, s) = PipelineRun::start(&c, yt("x", "Song"));
    assert_eq!(run.current_phase(), Phase::Downloading);
    assert_eq!(messages(&s), vec![(PipelineStage::Downloading, 0, "Downloading Song...".to_string())]);
    match s.next {
        Next::Run(Work::Download { video_id, download_dir, ffmpeg_dir }) => {
            assert_eq!(video_id, "x");
            assert_eq!(download_dir, "/c/downloads");
            assert_eq!(ffmpeg_dir, "/d/bin");
        }
        _ => panic!("expected a download"),
    }

    let s = run.advance(&c, WorkResult::Downloaded("/c/downloads/x.flac".to_string()), false);
    assert_eq!(messages(&s), vec![(PipelineStage::Downloading, 10000, "Download complete".to_string())]);
    match s.next {
        Next::Run(Work::CreateDir { path }) => assert_eq!(path, "/out/song (x)"),
        _ => panic!("expected the output folder"),
    }

    let s = run.advance(&c, WorkResult::Done, false);
    assert_eq!(messages(&s), vec![(PipelineStage::Downloading, 10000, "Saving full mix...".to_string())]);
    match s.next {
        Next::Run(Work::SaveFullMix { input, output }) => {
            assert_eq!(input, "/c/downloads/x.flac");
            assert_eq!(output, "/out/song (x)/full_mix.wav");
        }
        _ => panic!("expected the full mix"),
    }

    let s = run.advance(&c, WorkResult::Done, false);
    assert_eq!(messages(&s), vec![(PipelineStage::Splitting, 0, "Separating stems...".to_string())]);
    match s.next {
        Next::Run(Work::Separate { input, stem_dir, bin_dir }) => {
            assert_eq!(input, "/c/downloads/x.flac");
            assert_eq!(stem_dir, "/c/stems/x");
            assert_eq!(bin_dir, "/d/bin");
        }
        _ => panic!("expected separation"),
    }

    let s = run.advance(&c, WorkResult::Separated(stems()), false);
    assert_eq!(s.progress.len(), 2);
    assert_eq!(s.progress[1].message, "Converting 4 stems...");
    match s.next {
        Next::Run(Work::ConvertStems { stems: st, output_dir }) => {
            assert_eq!(st.len(), 4);
            assert_eq!(st[0], stems().vocals);
            assert_eq!(st[3], stems().other);
            assert_eq!(output_dir, "/out/song (x)");
        }
        _ => panic!("expected conversion"),
    }

    let s = run.advance(&c, WorkResult::Done, false);
    assert_eq!(
        messages(&s),
        vec![
            (PipelineStage::Converting, 10000, "Converted 4/4".to_string()),
            (PipelineStage::Mixing, 0, "Creating instrumental mix...".to_string()),
        ]
    );
    match s.next {
        Next::Run(Work::Mix { drums, bass, other, output }) => {
            assert_eq!(drums, stems().drums);
            assert_eq!(bass, stems().bass);
            assert_eq!(other, stems().other);
            assert_eq!(output, "/out/song (x)/instrumental.wav");
        }
        _ => panic!("expected the mix"),
    }

    let s = run.advance(&c, WorkResult::Done, false);
    assert_eq!(messages(&s), vec![(PipelineStage::Complete, 10000, "Done!".to_string())]);
    match s.next {
        Next::Run(Work::Cleanup { audio_path, stem_dir, remove_download }) => {
            assert_eq!(audio_path, "/c/downloads/x.flac");
            assert_eq!(stem_dir, "/c/stems/x");
            assert!(remove_download);
        }
        _ => panic!("expected cleanup"),
    }

    let s = run.advance(&c, WorkResult::Done, false);
    assert!(s.progress.is_empty());
    assert!(matches!(s.next, Next::Finish(Ok(()))));
    assert_eq!(run.current_phase(), Phase::Finished);
    assert!(!run.accepts(&WorkResult::Done));
}

#[test]
fn local_run_skips_download_and_keeps_the_file() {
    let c = ctx(false, false);
    let (mut run, s) = PipelineRun::start(&c, local("/music/Track One.flac"));
    assert!(s.progress.is_empty());
    match s.next {
        Next::Run(Work::CreateDir { path }) => assert_eq!(path, "/out/track one"),
        _ => panic!("expected the output folder"),
    }
    let s = run.advance(&c, WorkResult::Done, false);
    match s.next {
        Next::Run(Work::Separate { input, stem_dir, .. }) => {
            assert_eq!(input, "/music/Track One.flac");
            assert_eq!(stem_dir, "/c/stems/Track One");
        }
        _ => panic!("expected separation"),
    }
    let _ = run.advance(&c, WorkResult::Separated(stems()), false);
    let s = run.advance(&c, WorkResult::Done, false);
    assert_eq!(
        messages(&s),
        vec![
            (PipelineStage::Converting, 10000, "Converted 4/4".to_string()),
            (PipelineStage::Complete, 10000, "Done!".to_string()),
        ]
    );
    match s.next {
        Next::Run(Work::Cleanup { remove_download, .. }) => assert!(!remove_download),
        _ => panic!("expected cleanup"),
    }
}

#[test]
fn failures_and_cancellation_finish_the_run() {
    let c = ctx(false, true);
    let (mut run, _) = PipelineRun::start(&c, yt("x", "Song"));
    assert!(run.accepts(&WorkResult::Failed("e".to_string())));
    assert!(!run.accepts(&WorkResult::Done));
    let s = run.advance(&c, WorkResult::Failed("network down".to_string()), false);
    match s.next {
        Next::Finish(Err(PipelineError::StageFailed { stage, message })) => {
            assert_eq!(stage, "download");
            assert_eq!(message, "network down");
        }
        _ => panic!("expected a download failure"),
    }

    let (mut run, _) = PipelineRun::start(&c, yt("x", "Song"));
    let s = run.advance(&c, WorkResult::Downloaded("/c/downloads/x.flac".to_string()), true);
    assert!(matches!(s.next, Next::Finish(Err(PipelineError::Cancelled))));

    let (mut run, _) = PipelineRun::start(&c, local("/m/a.flac"));
    let _ = run.advance(&c, WorkResult::Done, false);
    let s = run.advance(&c, WorkResult::SplitFailed(SplitterError::Cancelled), false);
    assert!(matches!(s.next, Next::Finish(Err(PipelineError::Cancelled))));

    let (mut run, _) = PipelineRun::start(&c, local("/m/a.flac"));
    let _ = run.advance(&c, WorkResult::Done, false);
    let s = run.advance(&c, WorkResult::SplitFailed(SplitterError::Inference("bad".to_string())), false);
    match s.next {
        Next::Finish(Err(PipelineError::StageFailed { stage, message })) => {
            assert_eq!(stage, "split");
            assert_eq!(message, "inference failed: bad");
        }
        _ => panic!("expected a split failure"),
    }
}

#[test]
fn runner_reports_failures_but_not_cancellations() {
    assert!(failure_event(&PipelineError::Cancelled).is_none());
    let e = failure_event(&PipelineError::StageFailed { stage: "mix".to_string(), message: "boom".to_string() }).unwrap();
    assert_eq!(e.stage, PipelineStage::Failed);
    assert_eq!(e.fraction_bp, 0);
    assert_eq!(e.message, "pipeline stage failed: mix \u{2014} boom");
}

#[test]
fn windows_local_file_runs_under_its_stem() {
    let mut c = ctx(false, false);
    c.os = TargetOs::Windows;
    c.cache_dir = "C:\\cache".to_string();
    c.output_dir = "D:\\Music\\Tendril".to_string();
    let src = local("C:\\Users\\me\\My Song.flac");
    assert_eq!(src.display_name(TargetOs::Windows), "My Song");
    let (mut run, s) = PipelineRun::start(&c, src);
    match s.next {
        Next::Run(Work::CreateDir { path }) => assert_eq!(path, "D:\\Music\\Tendril\\my song"),
        _ => panic!("expected the output folder"),
    }
    let s = run.advance(&c, WorkResult::Done, false);
    match s.next {
        Next::Run(Work::Separate { stem_dir, .. }) => assert_eq!(stem_dir, "C:\\cache\\stems\\My Song"),
        _ => panic!("expected separation"),
    }
}
