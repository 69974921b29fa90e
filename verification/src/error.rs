//! Errors of the YouTube, audio, splitter and pipeline stages, with the
//! text each one reads as.
use vstd::prelude::*;
use crate::text::{decimal, push_decimal, push_signed_decimal, push_str, signed_decimal};

verus! {

/// Errors of YouTube search and download.
#[derive(Clone, Debug)]
pub enum YoutubeError {
    Search(String),
    Download { url: String, message: String },
    Process { code: i32, stderr: String },
}

/// Errors of audio conversion.
#[derive(Clone, Debug)]
pub enum AudioError {
    Conversion { message: String },
    FfmpegProcess { code: i32, stderr: String },
    UnsupportedFormat(String),
}

/// Errors of stem separation.
#[derive(Clone, Debug)]
pub enum SplitterError {
    Inference(String),
    ModelNotFound { path: String },
    UnsupportedModel(String),
    /// The job was cancelled while demucs ran.
    Cancelled,
}

/// Errors of a pipeline run.
#[derive(Clone, Debug)]
pub enum PipelineError {
    JobNotFound { job_id: u64 },
    StageFailed { stage: String, message: String },
    Cancelled,
}

/// The text a YouTube error reads as.
pub open spec fn youtube_error_text(e: YoutubeError) -> Seq<char> {
    match e {
        YoutubeError::Search(m) => "search failed: "@ + m@,
        YoutubeError::Download { url, message } => "download failed for "@ + url@ + ": "@
            + message@,
        YoutubeError::Process { code, stderr } => "yt-dlp process exited with code "@
            + signed_decimal(code as int) + ": "@ + stderr@,
    }
}

/// The text an audio error reads as.
pub open spec fn audio_error_text(e: AudioError) -> Seq<char> {
    match e {
        AudioError::Conversion { message } => "ffmpeg conversion failed: "@ + message@,
        AudioError::FfmpegProcess { code, stderr } => "ffmpeg process exited with code "@
            + signed_decimal(code as int) + ": "@ + stderr@,
        AudioError::UnsupportedFormat(f) => "unsupported format: "@ + f@,
    }
}

/// The text a splitter error reads as.
pub open spec fn splitter_error_text(e: SplitterError) -> Seq<char> {
    match e {
        SplitterError::Inference(m) => "inference failed: "@ + m@,
        SplitterError::ModelNotFound { path } => "model not found: "@ + path@,
        SplitterError::UnsupportedModel(m) => "unsupported model variant: "@ + m@,
        SplitterError::Cancelled => "separation cancelled"@,
    }
}

/// The text a pipeline error reads as.
pub open spec fn pipeline_error_text(e: PipelineError) -> Seq<char> {
    match e {
        PipelineError::JobNotFound { job_id } => "job "@ + decimal(job_id as nat) + " not found"@,
        PipelineError::StageFailed { stage, message } => "pipeline stage failed: "@ + stage@
            + " \u{2014} "@ + message@,
        PipelineError::Cancelled => "job cancelled"@,
    }
}

impl YoutubeError {
    /// The text this error reads as.
    pub fn message(&self) -> (m: String)
        ensures
            m@ == youtube_error_text(*self),
    {
        let mut m = String::new();
        match self {
            YoutubeError::Search(s) => {
                push_str(&mut m, "search failed: ");
                push_str(&mut m, s.as_str());
            },
            YoutubeError::Download { url, message } => {
                push_str(&mut m, "download failed for ");
                push_str(&mut m, url.as_str());
                push_str(&mut m, ": ");
                push_str(&mut m, message.as_str());
            },
            YoutubeError::Process { code, stderr } => {
                push_str(&mut m, "yt-dlp process exited with code ");
                push_signed_decimal(&mut m, *code);
                push_str(&mut m, ": ");
                push_str(&mut m, stderr.as_str());
            },
        }
        m
    }
}

impl AudioError {
    /// The text this error reads as.
    pub fn message(&self) -> (m: String)
        ensures
            m@ == audio_error_text(*self),
    {
        let mut m = String::new();
        match self {
            AudioError::Conversion { message } => {
                push_str(&mut m, "ffmpeg conversion failed: ");
                push_str(&mut m, message.as_str());
            },
            AudioError::FfmpegProcess { code, stderr } => {
                push_str(&mut m, "ffmpeg process exited with code ");
                push_signed_decimal(&mut m, *code);
                push_str(&mut m, ": ");
                push_str(&mut m, stderr.as_str());
            },
            AudioError::UnsupportedFormat(f) => {
                push_str(&mut m, "unsupported format: ");
                push_str(&mut m, f.as_str());
            },
        }
        m
    }
}

impl SplitterError {
    /// The text this error reads as.
    pub fn message(&self) -> (m: String)
        ensures
            m@ == splitter_error_text(*self),
    {
        let mut m = String::new();
        match self {
            SplitterError::Inference(s) => {
                push_str(&mut m, "inference failed: ");
                push_str(&mut m, s.as_str());
            },
            SplitterError::ModelNotFound { path } => {
                push_str(&mut m, "model not found: ");
                push_str(&mut m, path.as_str());
            },
            SplitterError::UnsupportedModel(s) => {
                push_str(&mut m, "unsupported model variant: ");
                push_str(&mut m, s.as_str());
            },
            SplitterError::Cancelled => {
                push_str(&mut m, "separation cancelled");
            },
        }
        m
    }
}

impl PipelineError {
    /// The text this error reads as.
    pub fn message(&self) -> (m: String)
        ensures
            m@ == pipeline_error_text(*self),
    {
        let mut m = String::new();
        match self {
            PipelineError::JobNotFound { job_id } => {
                push_str(&mut m, "job ");
                push_decimal(&mut m, *job_id);
                push_str(&mut m, " not found");
            },
            PipelineError::StageFailed { stage, message } => {
                push_str(&mut m, "pipeline stage failed: ");
                push_str(&mut m, stage.as_str());
                push_str(&mut m, " \u{2014} ");
                push_str(&mut m, message.as_str());
            },
            PipelineError::Cancelled => {
                push_str(&mut m, "job cancelled");
            },
        }
        m
    }
}

} // verus!
