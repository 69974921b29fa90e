//! Demucs stem separation: the command it runs, the paths it writes and the
//! progress it reports.
pub mod engine;
