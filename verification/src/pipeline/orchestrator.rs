//! The processing pipeline of one job, as a state machine: download, keep
//! the full mix, split, convert, mix, clean up. Each step says what to
//! report and what work to do next; the caller does the work and hands the
//! outcome back, together with whether the job has been cancelled.
use vstd::prelude::*;
use crate::config::{extension_of, GpuBackend, OutputFormat};
use crate::platform::TargetOs;
use crate::error::{pipeline_error_text, splitter_error_text, PipelineError, SplitterError};
use crate::paths::{file_stem, join_path, path_file_stem, path_join};
use crate::pipeline::job::{display_name_of, folder_name, job_dir_of, output_folder_name, JobSource};
use crate::youtube::search::{queue_title_of, result_dir_of, SearchResult};
use crate::progress::{PipelineStage, ProgressEvent};
use crate::splitter::engine::StemOutput;
use crate::text::{ends_with_seq, push_str};

verus! {

/// All paths and settings the pipeline needs to run a job.
pub struct PipelineContext {
    pub ytdlp_bin: String,
    pub ffmpeg_bin: String,
    /// The directory that holds `ffmpeg_bin` (`.` when it has none).
    pub ffmpeg_dir: String,
    pub python_bin: String,
    pub models_dir: String,
    pub cache_dir: String,
    pub output_dir: String,
    pub output_format: OutputFormat,
    pub gpu_backend: GpuBackend,
    pub model_name: String,
    /// Whether to keep the full mix next to the stems.
    pub preserve_full_mix: bool,
    /// Whether to render the instrumental mix (drums + bass + other).
    pub create_instrumental: bool,
    /// The platform whose path rules apply.
    pub os: TargetOs,
}

/// A piece of work the pipeline asks for.
pub enum Work {
    /// Download a video's audio into `download_dir`.
    Download { video_id: String, download_dir: String, ffmpeg_dir: String },
    /// Create the output directory.
    CreateDir { path: String },
    /// Encode the source audio into the output format at `output`.
    SaveFullMix { input: String, output: String },
    /// Separate `input` into stems under `stem_dir`, with `bin_dir` on the
    /// tool search path.
    Separate { input: String, stem_dir: String, bin_dir: String },
    /// Encode the four stems (vocals, drums, bass, other) into
    /// `output_dir`.
    ConvertStems { stems: Vec<String>, output_dir: String },
    /// Mix drums, bass and other into the instrumental at `output`.
    Mix { drums: String, bass: String, other: String, output: String },
    /// Remove the stem directory, and the downloaded audio when
    /// `remove_download` holds.
    Cleanup { audio_path: String, stem_dir: String, remove_download: bool },
}

/// The outcome of a piece of work.
pub enum WorkResult {
    /// The download finished, at this path.
    Downloaded(String),
    /// The work finished.
    Done,
    /// The work failed with this message.
    Failed(String),
    /// Separation finished with these stems.
    Separated(StemOutput),
    /// Separation failed.
    SplitFailed(SplitterError),
}

/// What to do after a step.
pub enum Next {
    Run(Work),
    Finish(Result<(), PipelineError>),
}

/// A step of the pipeline: the progress to report, then what comes next.
pub struct Step {
    pub progress: Vec<ProgressEvent>,
    pub next: Next,
}

/// The phase of a run: which work it waits for.
#[derive(Clone, Copy, Debug, PartialEq, Eq, Structural)]
pub enum Phase {
    Downloading,
    CreatingDir,
    SavingFullMix,
    Separating,
    Converting,
    Mixing,
    CleaningUp,
    Finished,
}

/// The order of the phases.
pub open spec fn rank(p: Phase) -> nat {
    match p {
        Phase::Downloading => 0,
        Phase::CreatingDir => 1,
        Phase::SavingFullMix => 2,
        Phase::Separating => 3,
        Phase::Converting => 4,
        Phase::Mixing => 5,
        Phase::CleaningUp => 6,
        Phase::Finished => 7,
    }
}

/// Whether `r` is an outcome of the work that `p` waits for.
pub open spec fn fits(p: Phase, r: WorkResult) -> bool {
    match p {
        Phase::Downloading => r is Downloaded || r is Failed,
        Phase::Separating => r is Separated || r is SplitFailed,
        Phase::Finished => false,
        _ => r is Done || r is Failed,
    }
}

/// The output folder of a job.
pub open spec fn final_dir_of(ctx: PipelineContext, source: JobSource) -> Seq<char> {
    path_join(
        ctx.output_dir@,
        folder_name(
            display_name_of(source, ctx.os),
            match source {
                JobSource::Youtube { video_id, .. } => Some(video_id@),
                JobSource::LocalFile { .. } => None,
            },
        ), ctx.os)
}

/// Where the stems of an audio file go: `<cache>/stems/<audio stem>`.
pub open spec fn stem_dir_of(cache_dir: Seq<char>, audio_path: Seq<char>, os: TargetOs) -> Seq<char> {
    path_join(
        path_join(cache_dir, "stems"@, os),
        match path_file_stem(audio_path, os) {
            Some(s) => s,
            None => "unknown"@,
        },
        os,
    )
}

/// A file `<name>.<ext>` in the output folder.
pub open spec fn output_file(final_dir: Seq<char>, name: Seq<char>, format: OutputFormat, os: TargetOs) -> Seq<char> {
    path_join(final_dir, name + "."@ + extension_of(format), os)
}

/// Whether `e` reports `stage` at `bp` basis points with message `msg`.
pub open spec fn is_event(e: ProgressEvent, stage: PipelineStage, bp: u32, msg: Seq<char>) -> bool {
    e.stage == stage && e.fraction_bp == bp && e.message@ == msg
}

/// Whether the step finishes with a stage failure labelled `stage` and
/// carrying `message`, reporting nothing.
pub open spec fn fails_at(s: Step, stage: Seq<char>, message: Seq<char>) -> bool {
    &&& s.progress@.len() == 0
    &&& s.next matches Next::Finish(Err(PipelineError::StageFailed { stage: st, message: m }))
    &&& st@ == stage
    &&& m@ == message
}

/// Whether the step finishes as cancelled, reporting nothing.
pub open spec fn is_cancelled(s: Step) -> bool {
    s.progress@.len() == 0 && s.next matches Next::Finish(Err(PipelineError::Cancelled))
}

/// Whether the step starts the separation of `audio` into `stem_dir`,
/// announcing it.
pub open spec fn starts_split(s: Step, ctx: PipelineContext, audio: Seq<char>, stem_dir: Seq<char>) -> bool {
    &&& s.progress@.len() == 1
    &&& is_event(s.progress@[0], PipelineStage::Splitting, 0, "Separating stems..."@)
    &&& s.next matches Next::Run(Work::Separate { input, stem_dir: sd, bin_dir })
    &&& input@ == audio
    &&& sd@ == stem_dir
    &&& bin_dir@ == ctx.ffmpeg_dir@
}

/// A run of the pipeline for one job.
pub struct PipelineRun {
    phase: Phase,
    is_youtube: bool,
    audio_path: String,
    final_dir: String,
    stem_dir: String,
    stems: Option<StemOutput>,
}

fn event(stage: PipelineStage, bp: u32, msg: &str) -> (e: ProgressEvent)
    ensures
        is_event(e, stage, bp, msg@),
{
    ProgressEvent { stage, fraction_bp: bp, message: String::from_str(msg) }
}

fn stage_failed(stage: &str, message: String) -> (s: Step)
    ensures
        fails_at(s, stage@, message@),
{
    Step {
        progress: Vec::new(),
        next: Next::Finish(Err(PipelineError::StageFailed { stage: String::from_str(stage), message })),
    }
}

fn cancelled() -> (s: Step)
    ensures
        is_cancelled(s),
{
    Step { progress: Vec::new(), next: Next::Finish(Err(PipelineError::Cancelled)) }
}

fn output_file_path(final_dir: &String, name: &str, format: OutputFormat, os: TargetOs) -> (p: String)
    ensures
        p@ == output_file(final_dir@, name@, format, os),
{
    let mut f = String::new();
    push_str(&mut f, name);
    push_str(&mut f, ".");
    push_str(&mut f, format.extension());
    join_path(final_dir.as_str(), f.as_str(), os)
}

fn stem_dir_for(cache_dir: &String, audio_path: &String, os: TargetOs) -> (p: String)
    ensures
        p@ == stem_dir_of(cache_dir@, audio_path@, os),
{
    let stem = match file_stem(audio_path.as_str(), os) {
        Some(s) => s,
        None => String::from_str("unknown"),
    };
    join_path(join_path(cache_dir.as_str(), "stems", os).as_str(), stem.as_str(), os)
}

impl PipelineRun {
    /// The phase the run is in.
    pub closed spec fn phase(&self) -> Phase {
        self.phase
    }

    /// Whether the job's source is a YouTube video.
    pub closed spec fn is_youtube(&self) -> bool {
        self.is_youtube
    }

    /// The audio being processed (known once downloaded).
    pub closed spec fn audio_path(&self) -> Seq<char> {
        self.audio_path@
    }

    /// The job's output folder.
    pub closed spec fn final_dir(&self) -> Seq<char> {
        self.final_dir@
    }

    /// Where the stems are written (known once the audio is).
    pub closed spec fn stem_dir(&self) -> Seq<char> {
        self.stem_dir@
    }

    /// The separated stems (vocals, drums, bass, other), once there are.
    pub closed spec fn stem_paths(&self) -> Option<(Seq<char>, Seq<char>, Seq<char>, Seq<char>)> {
        match self.stems {
            Some(s) => Some((s.vocals@, s.drums@, s.bass@, s.other@)),
            None => None,
        }
    }

    /// Well-formedness: once stems are awaited for conversion or mixing,
    /// they are known.
    #[verifier::type_invariant]
    closed spec fn wf(&self) -> bool {
        (self.phase == Phase::Converting || self.phase == Phase::Mixing) ==> self.stems is Some
    }

    /// The phase the run is in.
    pub fn current_phase(&self) -> (p: Phase)
        ensures
            p == self.phase(),
    {
        self.phase
    }

    /// Whether `result` is an outcome of the work the run waits for.
    pub fn accepts(&self, result: &WorkResult) -> (b: bool)
        ensures
            b == fits(self.phase(), *result),
    {
        match self.phase {
            Phase::Downloading => match result {
                WorkResult::Downloaded(_) | WorkResult::Failed(_) => true,
                _ => false,
            },
            Phase::Separating => match result {
                WorkResult::Separated(_) | WorkResult::SplitFailed(_) => true,
                _ => false,
            },
            Phase::Finished => false,
            _ => match result {
                WorkResult::Done | WorkResult::Failed(_) => true,
                _ => false,
            },
        }
    }

    /// Start a run: a video is downloaded first; a local file goes straight
    /// to the creation of the output folder.
    pub fn start(ctx: &PipelineContext, source: JobSource) -> (r: (PipelineRun, Step))
        ensures
            r.0.is_youtube() == (source is Youtube),
            r.0.final_dir() == final_dir_of(*ctx, source),
            match source {
                JobSource::Youtube { video_id, title } => {
                    &&& r.0.phase() == Phase::Downloading
                    &&& r.1.progress@.len() == 1
                    &&& is_event(
                        r.1.progress@[0],
                        PipelineStage::Downloading,
                        0,
                        "Downloading "@ + title@ + "..."@,
                    )
                    &&& r.1.next matches Next::Run(
                        Work::Download { video_id: v, download_dir: d, ffmpeg_dir: f },
                    )
                    &&& v@ == video_id@
                    &&& d@ == path_join(ctx.cache_dir@, "downloads"@, ctx.os)
                    &&& f@ == ctx.ffmpeg_dir@
                },
                JobSource::LocalFile { path } => {
                    &&& r.0.phase() == Phase::CreatingDir
                    &&& r.0.audio_path() == path@
                    &&& r.0.stem_dir() == stem_dir_of(ctx.cache_dir@, path@, ctx.os)
                    &&& r.1.progress@.len() == 0
                    &&& r.1.next matches Next::Run(Work::CreateDir { path: p })
                    &&& p@ == final_dir_of(*ctx, source)
                },
            },
    {
        let name = source.display_name(ctx.os);
        let folder = output_folder_name(name.as_str(), source.video_id());
        let final_dir = join_path(ctx.output_dir.as_str(), folder.as_str(), ctx.os);
        match source {
            JobSource::Youtube { video_id, title } => {
                let mut msg = String::new();
                push_str(&mut msg, "Downloading ");
                push_str(&mut msg, title.as_str());
                push_str(&mut msg, "...");
                let mut progress: Vec<ProgressEvent> = Vec::new();
                progress.push(
                    ProgressEvent { stage: PipelineStage::Downloading, fraction_bp: 0, message: msg },
                );
                let run = PipelineRun {
                    phase: Phase::Downloading,
                    is_youtube: true,
                    audio_path: String::new(),
                    final_dir,
                    stem_dir: String::new(),
                    stems: None,
                };
                let work = Work::Download {
                    video_id,
                    download_dir: join_path(ctx.cache_dir.as_str(), "downloads", ctx.os),
                    ffmpeg_dir: ctx.ffmpeg_dir.clone(),
                };
                (run, Step { progress, next: Next::Run(work) })
            },
            JobSource::LocalFile { path } => {
                let stem_dir = stem_dir_for(&ctx.cache_dir, &path, ctx.os);
                let dir = final_dir.clone();
                let run = PipelineRun {
                    phase: Phase::CreatingDir,
                    is_youtube: false,
                    audio_path: path,
                    final_dir,
                    stem_dir,
                    stems: None,
                };
                (run, Step { progress: Vec::new(), next: Next::Run(Work::CreateDir { path: dir }) })
            },
        }
    }

    fn split_step(&mut self, ctx: &PipelineContext) -> (s: Step)
        ensures
            final(self).phase() == Phase::Separating,
            final(self).is_youtube() == old(self).is_youtube(),
            final(self).audio_path() == old(self).audio_path(),
            final(self).final_dir() == old(self).final_dir(),
            final(self).stem_dir() == old(self).stem_dir(),
            final(self).stem_paths() == old(self).stem_paths(),
            starts_split(s, *ctx, old(self).audio_path(), old(self).stem_dir()),
    {
        self.phase = Phase::Separating;
        let mut progress: Vec<ProgressEvent> = Vec::new();
        progress.push(event(PipelineStage::Splitting, 0, "Separating stems..."));
        let work = Work::Separate {
            input: self.audio_path.clone(),
            stem_dir: self.stem_dir.clone(),
            bin_dir: ctx.ffmpeg_dir.clone(),
        };
        Step { progress, next: Next::Run(work) }
    }

    fn cleanup_work(&self) -> (w: Work)
        ensures
            w matches Work::Cleanup { audio_path, stem_dir, remove_download } && audio_path@
                == self.audio_path() && stem_dir@ == self.stem_dir() && remove_download
                == self.is_youtube(),
    {
        Work::Cleanup {
            audio_path: self.audio_path.clone(),
            stem_dir: self.stem_dir.clone(),
            remove_download: self.is_youtube,
        }
    }

    /// Hand the outcome of the awaited work back, with whether the job has
    /// been cancelled meanwhile, and get the next step.
    pub fn advance(&mut self, ctx: &PipelineContext, result: WorkResult, is_cancelled_now: bool) -> (s: Step)
        requires
            fits(old(self).phase(), result),
        ensures
            final(self).is_youtube() == old(self).is_youtube(),
            final(self).final_dir() == old(self).final_dir(),
            s.next is Run ==> rank(final(self).phase()) > rank(old(self).phase()),
            s.next is Finish ==> final(self).phase() == Phase::Finished,
            !(old(self).phase() == Phase::Downloading && s.next is Run) ==> final(self).audio_path()
                == old(self).audio_path() && final(self).stem_dir() == old(self).stem_dir(),
            !(old(self).phase() == Phase::Separating && s.next is Run) ==> final(self).stem_paths()
                == old(self).stem_paths(),
            match old(self).phase() {
                Phase::Downloading => match result {
                    WorkResult::Failed(m) => fails_at(s, "download"@, m@),
                    WorkResult::Downloaded(p) => if is_cancelled_now {
                        is_cancelled(s)
                    } else {
                        &&& final(self).phase() == Phase::CreatingDir
                        &&& final(self).audio_path() == p@
                        &&& final(self).stem_dir() == stem_dir_of(ctx.cache_dir@, p@, ctx.os)
                        &&& s.progress@.len() == 1
                        &&& is_event(
                            s.progress@[0],
                            PipelineStage::Downloading,
                            10000,
                            "Download complete"@,
                        )
                        &&& s.next matches Next::Run(Work::CreateDir { path })
                        &&& path@ == old(self).final_dir()
                    },
                    _ => true,
                },
                Phase::CreatingDir => match result {
                    WorkResult::Failed(m) => fails_at(s, "convert"@, m@),
                    _ => if ctx.preserve_full_mix {
                        if is_cancelled_now {
                            is_cancelled(s)
                        } else {
                            &&& final(self).phase() == Phase::SavingFullMix
                            &&& s.progress@.len() == 1
                            &&& is_event(
                                s.progress@[0],
                                PipelineStage::Downloading,
                                10000,
                                "Saving full mix..."@,
                            )
                            &&& s.next matches Next::Run(Work::SaveFullMix { input, output })
                            &&& input@ == old(self).audio_path()
                            &&& output@ == output_file(
                                old(self).final_dir(),
                                "full_mix"@,
                                ctx.output_format, ctx.os,
                            )
                        }
                    } else {
                        starts_split(s, *ctx, old(self).audio_path(), old(self).stem_dir())
                            && final(self).phase() == Phase::Separating
                    },
                },
                Phase::SavingFullMix => match result {
                    WorkResult::Failed(m) => fails_at(s, "convert"@, m@),
                    _ => if is_cancelled_now {
                        is_cancelled(s)
                    } else {
                        starts_split(s, *ctx, old(self).audio_path(), old(self).stem_dir())
                            && final(self).phase() == Phase::Separating
                    },
                },
                Phase::Separating => match result {
                    WorkResult::SplitFailed(e) => match e {
                        SplitterError::Cancelled => is_cancelled(s),
                        _ => fails_at(s, "split"@, splitter_error_text(e)),
                    },
                    WorkResult::Separated(stems) => if is_cancelled_now {
                        is_cancelled(s)
                    } else {
                        &&& final(self).phase() == Phase::Converting
                        &&& final(self).stem_paths() == Some(
                            (stems.vocals@, stems.drums@, stems.bass@, stems.other@),
                        )
                        &&& s.progress@.len() == 2
                        &&& is_event(
                            s.progress@[0],
                            PipelineStage::Converting,
                            0,
                            "Converting to output format..."@,
                        )
                        &&& is_event(
                            s.progress@[1],
                            PipelineStage::Converting,
                            0,
                            "Converting 4 stems..."@,
                        )
                        &&& s.next matches Next::Run(Work::ConvertStems { stems: st, output_dir })
                        &&& st@.map_values(|x: String| x@) == seq![
                            stems.vocals@,
                            stems.drums@,
                            stems.bass@,
                            stems.other@,
                        ]
                        &&& output_dir@ == old(self).final_dir()
                    },
                    _ => true,
                },
                Phase::Converting => match result {
                    WorkResult::Failed(m) => fails_at(s, "convert"@, m@),
                    _ => if is_cancelled_now {
                        is_cancelled(s)
                    } else if ctx.create_instrumental {
                        &&& final(self).phase() == Phase::Mixing
                        &&& s.progress@.len() == 2
                        &&& is_event(
                            s.progress@[0],
                            PipelineStage::Converting,
                            10000,
                            "Converted 4/4"@,
                        )
                        &&& is_event(
                            s.progress@[1],
                            PipelineStage::Mixing,
                            0,
                            "Creating instrumental mix..."@,
                        )
                        &&& s.next matches Next::Run(Work::Mix { drums, bass, other, output })
                        &&& old(self).stem_paths() matches Some((v, d, b, o))
                        &&& drums@ == d && bass@ == b && other@ == o
                        &&& output@ == output_file(
                            old(self).final_dir(),
                            "instrumental"@,
                            ctx.output_format, ctx.os,
                        )
                    } else {
                        &&& final(self).phase() == Phase::CleaningUp
                        &&& s.progress@.len() == 2
                        &&& is_event(
                            s.progress@[0],
                            PipelineStage::Converting,
                            10000,
                            "Converted 4/4"@,
                        )
                        &&& is_event(s.progress@[1], PipelineStage::Complete, 10000, "Done!"@)
                        &&& s.next matches Next::Run(
                            Work::Cleanup { audio_path, stem_dir, remove_download },
                        )
                        &&& audio_path@ == old(self).audio_path()
                        &&& stem_dir@ == old(self).stem_dir()
                        &&& remove_download == old(self).is_youtube()
                    },
                },
                Phase::Mixing => match result {
                    WorkResult::Failed(m) => fails_at(s, "mix"@, m@),
                    _ => {
                        &&& final(self).phase() == Phase::CleaningUp
                        &&& s.progress@.len() == 1
                        &&& is_event(s.progress@[0], PipelineStage::Complete, 10000, "Done!"@)
                        &&& s.next matches Next::Run(
                            Work::Cleanup { audio_path, stem_dir, remove_download },
                        )
                        &&& audio_path@ == old(self).audio_path()
                        &&& stem_dir@ == old(self).stem_dir()
                        &&& remove_download == old(self).is_youtube()
                    },
                },
                Phase::CleaningUp => s.progress@.len() == 0 && s.next matches Next::Finish(Ok(())),
                Phase::Finished => true,
            },
    {
        proof {
            use_type_invariant(&*self);
        }
        match self.phase {
            Phase::Downloading => {
                match result {
                    WorkResult::Downloaded(p) => {
                        if is_cancelled_now {
                            self.phase = Phase::Finished;
                            return cancelled();
                        }
                        self.stem_dir = stem_dir_for(&ctx.cache_dir, &p, ctx.os);
                        self.audio_path = p;
                        self.phase = Phase::CreatingDir;
                        let mut progress: Vec<ProgressEvent> = Vec::new();
                        progress.push(event(PipelineStage::Downloading, 10000, "Download complete"));
                        Step {
                            progress,
                            next: Next::Run(Work::CreateDir { path: self.final_dir.clone() }),
                        }
                    },
                    WorkResult::Failed(m) => {
                        self.phase = Phase::Finished;
                        stage_failed("download", m)
                    },
                    _ => {
                        self.phase = Phase::Finished;
                        cancelled()
                    },
                }
            },
            Phase::CreatingDir => {
                if let WorkResult::Failed(m) = result {
                    self.phase = Phase::Finished;
                    return stage_failed("convert", m);
                }
                if ctx.preserve_full_mix {
                    if is_cancelled_now {
                        self.phase = Phase::Finished;
                        return cancelled();
                    }
                    self.phase = Phase::SavingFullMix;
                    let mut progress: Vec<ProgressEvent> = Vec::new();
                    progress.push(event(PipelineStage::Downloading, 10000, "Saving full mix..."));
                    let output = output_file_path(&self.final_dir, "full_mix", ctx.output_format, ctx.os);
                    Step {
                        progress,
                        next: Next::Run(Work::SaveFullMix { input: self.audio_path.clone(), output }),
                    }
                } else {
                    self.split_step(ctx)
                }
            },
            Phase::SavingFullMix => {
                if let WorkResult::Failed(m) = result {
                    self.phase = Phase::Finished;
                    return stage_failed("convert", m);
                }
                if is_cancelled_now {
                    self.phase = Phase::Finished;
                    return cancelled();
                }
                self.split_step(ctx)
            },
            Phase::Separating => {
                match result {
                    WorkResult::SplitFailed(e) => {
                        self.phase = Phase::Finished;
                        match e {
                            SplitterError::Cancelled => cancelled(),
                            other => stage_failed("split", other.message()),
                        }
                    },
                    WorkResult::Separated(stems) => {
                        if is_cancelled_now {
                            self.phase = Phase::Finished;
                            return cancelled();
                        }
                        let mut paths: Vec<String> = Vec::new();
                        paths.push(stems.vocals.clone());
                        paths.push(stems.drums.clone());
                        paths.push(stems.bass.clone());
                        paths.push(stems.other.clone());
                        assert(paths@.map_values(|x: String| x@) =~= seq![
                            stems.vocals@,
                            stems.drums@,
                            stems.bass@,
                            stems.other@,
                        ]);
                        self.stems = Some(stems);
                        self.phase = Phase::Converting;
                        let mut progress: Vec<ProgressEvent> = Vec::new();
                        progress.push(
                            event(PipelineStage::Converting, 0, "Converting to output format..."),
                        );
                        progress.push(event(PipelineStage::Converting, 0, "Converting 4 stems..."));
                        Step {
                            progress,
                            next: Next::Run(
                                Work::ConvertStems { stems: paths, output_dir: self.final_dir.clone() },
                            ),
                        }
                    },
                    _ => {
                        self.phase = Phase::Finished;
                        cancelled()
                    },
                }
            },
            Phase::Converting => {
                if let WorkResult::Failed(m) = result {
                    self.phase = Phase::Finished;
                    return stage_failed("convert", m);
                }
                if is_cancelled_now {
                    self.phase = Phase::Finished;
                    return cancelled();
                }
                let mut progress: Vec<ProgressEvent> = Vec::new();
                progress.push(event(PipelineStage::Converting, 10000, "Converted 4/4"));
                if ctx.create_instrumental {
                    match &self.stems {
                        Some(st) => {
                            progress.push(
                                event(PipelineStage::Mixing, 0, "Creating instrumental mix..."),
                            );
                            let output = output_file_path(
                                &self.final_dir,
                                "instrumental",
                                ctx.output_format,
                                ctx.os,
                            );
                            let work = Work::Mix {
                                drums: st.drums.clone(),
                                bass: st.bass.clone(),
                                other: st.other.clone(),
                                output,
                            };
                            self.phase = Phase::Mixing;
                            Step { progress, next: Next::Run(work) }
                        },
                        None => {
                            self.phase = Phase::Finished;
                            cancelled()
                        },
                    }
                } else {
                    progress.push(event(PipelineStage::Complete, 10000, "Done!"));
                    let work = self.cleanup_work();
                    self.phase = Phase::CleaningUp;
                    Step { progress, next: Next::Run(work) }
                }
            },
            Phase::Mixing => {
                if let WorkResult::Failed(m) = result {
                    self.phase = Phase::Finished;
                    return stage_failed("mix", m);
                }
                let mut progress: Vec<ProgressEvent> = Vec::new();
                progress.push(event(PipelineStage::Complete, 10000, "Done!"));
                let work = self.cleanup_work();
                self.phase = Phase::CleaningUp;
                Step { progress, next: Next::Run(work) }
            },
            Phase::CleaningUp => {
                self.phase = Phase::Finished;
                Step { progress: Vec::new(), next: Next::Finish(Ok(())) }
            },
            Phase::Finished => {
                Step { progress: Vec::new(), next: Next::Finish(Ok(())) }
            },
        }
    }
}


/// What the runner reports when a run ends in error: a cancelled job
/// reports nothing (it was removed on purpose); any other error marks the
/// job failed with the error's text.
pub fn failure_event(e: &PipelineError) -> (r: Option<ProgressEvent>)
    ensures
        match *e {
            PipelineError::Cancelled => r is None,
            _ => r matches Some(ev) && ev.stage == PipelineStage::Failed && ev.fraction_bp == 0
                && ev.message@ == pipeline_error_text(*e),
        },
{
    match e {
        PipelineError::Cancelled => None,
        _ => Some(ProgressEvent { stage: PipelineStage::Failed, fraction_bp: 0, message: e.message() }),
    }
}


/// A finished job in the queue opens the folder its run wrote into.
pub proof fn queue_folder_is_run_folder(ctx: PipelineContext, source: JobSource)
    ensures
        job_dir_of(ctx.output_dir@, source, ctx.os) == final_dir_of(ctx, source),
{
}

/// A search result without a channel is marked processed by the folder
/// that the run of its queued job writes into.
pub proof fn result_folder_is_run_folder(ctx: PipelineContext, result: SearchResult, source: JobSource)
    requires
        result.channel@.len() == 0,
        source matches JobSource::Youtube { video_id, title } && video_id@ == result.video_id@
            && title@ == queue_title_of(result),
    ensures
        result_dir_of(ctx.output_dir@, result, ctx.os) == final_dir_of(ctx, source),
{
}


/// Every file the pipeline writes into the output folder carries the
/// extension of the chosen format: the output file named `name` ends with
/// `name`, a `.` and the format's extension, whatever the folder and
/// platform.
pub proof fn output_files_carry_the_format(final_dir: Seq<char>, name: Seq<char>, format: OutputFormat, os: TargetOs)
    ensures
        ends_with_seq(output_file(final_dir, name, format, os), name + "."@ + extension_of(format)),
        ends_with_seq(output_file(final_dir, name, format, os), "."@ + extension_of(format)),
{
    let c = name + "."@ + extension_of(format);
    crate::paths::join_ends_with_component(final_dir, c, os);
    let r = output_file(final_dir, name, format, os);
    let t = "."@ + extension_of(format);
    assert(c.skip(c.len() - t.len()) =~= t);
    assert(r.skip(r.len() - c.len()) == c);
    assert(r.skip(r.len() - t.len()) =~= c.skip(c.len() - t.len()));
}

} // verus!
