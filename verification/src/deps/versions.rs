//! The installed versions of the dependencies Tendril manages.
use vstd::prelude::*;

verus! {

/// Tracks installed versions of dependencies that Tendril manages.
///
/// ffmpeg is intentionally absent: its state and version are derived live
/// on every read, so there is nothing to cache here.
pub struct InstalledVersions {
    pub python: Option<String>,
    pub torch: Option<String>,
    pub demucs: Option<String>,
    pub ytdlp: Option<String>,
}

impl Default for InstalledVersions {
    fn default() -> (v: InstalledVersions)
        ensures
            v.python is None,
            v.torch is None,
            v.demucs is None,
            v.ytdlp is None,
    {
        InstalledVersions { python: None, torch: None, demucs: None, ytdlp: None }
    }
}

/// A copy of an optional text.
pub fn clone_opt(o: &Option<String>) -> (r: Option<String>)
    ensures
        r == *o,
{
    match o {
        Some(s) => Some(s.clone()),
        None => None,
    }
}

} // verus!
