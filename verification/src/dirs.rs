//! Platform directories for Tendril data and the paths under them.
use vstd::prelude::*;
use crate::paths::{join_path, path_join};
use crate::platform::TargetOs;

verus! {

/// Platform-appropriate directories for Tendril data.
#[derive(Clone)]
pub struct AppDirs {
    /// Config files (e.g. settings.toml).
    pub config_dir: String,
    /// Persistent data: models, downloaded binaries.
    pub data_dir: String,
    /// Cache: temporary downloads, intermediate audio files.
    pub cache_dir: String,
}

/// The path of the bundled Python binary under the demucs directory.
pub open spec fn python_bin_under(demucs: Seq<char>, os: TargetOs) -> Seq<char> {
    if os == TargetOs::Windows {
        path_join(path_join(demucs, "python"@, os), "python.exe"@, os)
    } else {
        path_join(path_join(path_join(demucs, "python"@, os), "bin"@, os), "python3"@, os)
    }
}

impl AppDirs {
    /// Directory where external binaries (ffmpeg, yt-dlp) are stored.
    pub fn bin_dir(&self, os: TargetOs) -> (p: String)
        ensures
            p@ == path_join(self.data_dir@, "bin"@, os),
    {
        join_path(self.data_dir.as_str(), "bin", os)
    }

    /// Directory where demucs models are cached.
    pub fn models_dir(&self, os: TargetOs) -> (p: String)
        ensures
            p@ == path_join(self.data_dir@, "models"@, os),
    {
        join_path(self.data_dir.as_str(), "models", os)
    }

    /// Directory where the bundled demucs Python environment lives.
    pub fn demucs_dir(&self, os: TargetOs) -> (p: String)
        ensures
            p@ == path_join(self.data_dir@, "demucs"@, os),
    {
        join_path(self.data_dir.as_str(), "demucs", os)
    }

    /// Path to the bundled Python binary.
    pub fn python_bin(&self, os: TargetOs) -> (p: String)
        ensures
            p@ == python_bin_under(path_join(self.data_dir@, "demucs"@, os), os),
    {
        let demucs = self.demucs_dir(os);
        let python = join_path(demucs.as_str(), "python", os);
        if os == TargetOs::Windows {
            join_path(python.as_str(), "python.exe", os)
        } else {
            join_path(join_path(python.as_str(), "bin", os).as_str(), "python3", os)
        }
    }
}

} // verus!
