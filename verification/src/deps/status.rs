//! Installation status of every dependency, as the UI shows it.
use vstd::prelude::*;
use crate::deps::versions::{clone_opt, InstalledVersions};
use crate::deps::demucs_bundle::{site_packages_dir, site_packages_of};
use crate::dirs::{python_bin_under, AppDirs};
use crate::paths::{join_path, path_join};
use crate::platform::TargetOs;
use crate::deps::{ffmpeg_name, ytdlp_name};

verus! {

/// Installation state of a dependency.
#[derive(Clone, Copy, Debug, PartialEq, Eq, Structural)]
pub enum DepState {
    /// Installed and managed by Tendril.
    Installed,
    /// Found on system PATH (ffmpeg only).
    System,
    /// Not installed.
    Missing,
}

/// Status of a single dependency for UI display.
pub struct DependencyStatus {
    pub name: String,
    pub state: DepState,
    pub version: Option<String>,
    /// Whether the dep can be updated (not pinned, not system).
    pub updatable: bool,
    /// Whether a newer version is available.
    pub update_available: bool,
    pub latest_version: Option<String>,
    /// Where the dependency lives on disk (binary path or package dir),
    /// when installed. For ffmpeg this is the resolved binary, managed or
    /// system, so the UI shows which one the pipeline actually runs.
    pub location: Option<String>,
}

/// What a local look at the disk found: the recorded versions, which of the
/// expected files and directories exist, and the ffmpeg candidates.
pub struct DepProbe {
    pub versions: InstalledVersions,
    /// The bundled Python binary exists.
    pub python_exists: bool,
    /// The `torch` package directory exists.
    pub torch_dir_exists: bool,
    /// The `demucs` package directory exists.
    pub demucs_dir_exists: bool,
    /// The managed yt-dlp binary exists.
    pub ytdlp_exists: bool,
    /// The managed ffmpeg binary exists.
    pub ffmpeg_managed_exists: bool,
    /// A working ffmpeg on the system PATH, if any.
    pub ffmpeg_system: Option<String>,
    /// The version the resolved ffmpeg reports, if it reports one.
    pub ffmpeg_version: Option<String>,
}

/// The view of an optional text.
pub open spec fn opt_view(o: Option<String>) -> Option<Seq<char>> {
    match o {
        Some(s) => Some(s@),
        None => None,
    }
}

/// Which ffmpeg the pipeline runs and in what state: Windows prefers the
/// managed build, other platforms a working system ffmpeg.
pub open spec fn resolved_ffmpeg(
    os: TargetOs,
    managed: Seq<char>,
    managed_exists: bool,
    system: Option<Seq<char>>,
) -> (Option<Seq<char>>, Option<DepState>) {
    if os == TargetOs::Windows {
        if managed_exists {
            (Some(managed), Some(DepState::Installed))
        } else if system is Some {
            (system, Some(DepState::System))
        } else {
            (None, None)
        }
    } else {
        if system is Some {
            (system, Some(DepState::System))
        } else if managed_exists {
            (Some(managed), Some(DepState::Installed))
        } else {
            (None, None)
        }
    }
}

/// Resolve which ffmpeg binary is used, mirroring the install priority:
/// macOS/Linux prefer a working system ffmpeg; Windows prefers the managed
/// build.
pub fn resolved(os: TargetOs, managed: String, managed_exists: bool, system: Option<String>) -> (r: (
    Option<String>,
    Option<DepState>,
))
    ensures
        (opt_view(r.0), r.1) == resolved_ffmpeg(os, managed@, managed_exists, opt_view(system)),
{
    if os == TargetOs::Windows {
        if managed_exists {
            return (Some(managed), Some(DepState::Installed));
        }
        if let Some(s) = system {
            return (Some(s), Some(DepState::System));
        }
        (None, None)
    } else {
        if let Some(s) = system {
            return (Some(s), Some(DepState::System));
        }
        if managed_exists {
            return (Some(managed), Some(DepState::Installed));
        }
        (None, None)
    }
}

/// Whether `s` is the status the ffmpeg entry shows for a resolution and
/// the version its binary reports.
pub open spec fn is_ffmpeg_status(
    s: DependencyStatus,
    res: (Option<Seq<char>>, Option<DepState>),
    version: Option<Seq<char>>,
) -> bool {
    &&& s.name@ == "ffmpeg"@
    &&& s.update_available == false
    &&& s.latest_version is None
    &&& match res {
        (Some(path), Some(st)) => {
            &&& s.state == st
            &&& opt_view(s.version) == version
            &&& opt_view(s.location) == Some(path)
        },
        _ => {
            &&& s.state == DepState::Missing
            &&& s.version is None
            &&& s.location is None
        },
    }
    &&& s.updatable == (s.state == DepState::Installed)
}

/// The ffmpeg status: the resolved binary, its state and the version it
/// reports; `Missing` with no version when none resolves.
pub fn ffmpeg_status(
    dirs: &AppDirs,
    os: TargetOs,
    managed_exists: bool,
    system: Option<String>,
    version: Option<String>,
) -> (s: DependencyStatus)
    ensures
        is_ffmpeg_status(
            s,
            resolved_ffmpeg(
                os,
                path_join(path_join(dirs.data_dir@, "bin"@, os), ffmpeg_name(os), os),
                managed_exists,
                opt_view(system),
            ),
            opt_view(version),
        ),
{
    let managed = join_path(dirs.bin_dir(os).as_str(), crate::deps::ffmpeg_binary_name(os), os);
    let (binary, state) = resolved(os, managed, managed_exists, system);
    let (version, state, location) = match (binary, state) {
        (Some(path), Some(st)) => (version, st, Some(path)),
        _ => (None, DepState::Missing, None),
    };
    proof {
        reveal_strlit("ffmpeg");
    }
    DependencyStatus {
        name: String::from_str("ffmpeg"),
        updatable: state == DepState::Installed,
        update_available: false,
        latest_version: None,
        version,
        state,
        location,
    }
}

/// Whether `s` shows dependency `name` in `state`, with `version`,
/// updatable or not, at `location`, and with no update known.
pub open spec fn is_status(
    s: DependencyStatus,
    name: Seq<char>,
    state: DepState,
    version: Option<String>,
    updatable: bool,
    location: Option<Seq<char>>,
) -> bool {
    &&& s.name@ == name
    &&& s.state == state
    &&& s.version == version
    &&& s.updatable == updatable
    &&& !s.update_available
    &&& s.latest_version is None
    &&& opt_view(s.location) == location
}

/// `Installed` when `present`, else `Missing`.
pub open spec fn present_state(present: bool) -> DepState {
    if present {
        DepState::Installed
    } else {
        DepState::Missing
    }
}

/// `Some(p)` when `present`.
pub open spec fn located(present: bool, p: Seq<char>) -> Option<Seq<char>> {
    if present {
        Some(p)
    } else {
        None
    }
}

fn state_if(present: bool) -> (s: DepState)
    ensures
        s == present_state(present),
{
    if present {
        DepState::Installed
    } else {
        DepState::Missing
    }
}

fn located_at(present: bool, p: String) -> (r: Option<String>)
    ensures
        opt_view(r) == located(present, p@),
{
    if present {
        Some(p)
    } else {
        None
    }
}

/// Check the installation status of all dependencies, from what a local
/// look at the disk found: Python, PyTorch, demucs, yt-dlp and ffmpeg, in
/// that order. Python and PyTorch are pinned (never updatable); PyTorch
/// counts as installed only with Python present.
pub fn check_all(dirs: &AppDirs, os: TargetOs, probe: &DepProbe) -> (r: Vec<DependencyStatus>)
    ensures
        r@.len() == 5,
        is_status(
            r@[0],
            "Python"@,
            present_state(probe.python_exists),
            probe.versions.python,
            false,
            located(
                probe.python_exists,
                python_bin_under(path_join(dirs.data_dir@, "demucs"@, os), os),
            ),
        ),
        is_status(
            r@[1],
            "PyTorch"@,
            present_state(probe.python_exists && probe.versions.torch is Some),
            probe.versions.torch,
            false,
            located(probe.torch_dir_exists, path_join(site_packages_of(dirs.data_dir@, os), "torch"@, os)),
        ),
        is_status(
            r@[2],
            "demucs"@,
            present_state(probe.versions.demucs is Some),
            probe.versions.demucs,
            true,
            located(
                probe.demucs_dir_exists,
                path_join(site_packages_of(dirs.data_dir@, os), "demucs"@, os),
            ),
        ),
        is_status(
            r@[3],
            "yt-dlp"@,
            present_state(probe.ytdlp_exists),
            probe.versions.ytdlp,
            true,
            located(probe.ytdlp_exists, path_join(path_join(dirs.data_dir@, "bin"@, os), ytdlp_name(os), os)),
        ),
        is_ffmpeg_status(
            r@[4],
            resolved_ffmpeg(
                os,
                path_join(path_join(dirs.data_dir@, "bin"@, os), ffmpeg_name(os), os),
                probe.ffmpeg_managed_exists,
                opt_view(probe.ffmpeg_system),
            ),
            opt_view(probe.ffmpeg_version),
        ),
{
    let site = site_packages_dir(dirs, os);
    let torch_dir = join_path(site.as_str(), "torch", os);
    let demucs_dir = join_path(site.as_str(), "demucs", os);
    let ytdlp_bin = join_path(dirs.bin_dir(os).as_str(), crate::deps::ytdlp_binary_name(os), os);
    let v = &probe.versions;
    let mut r: Vec<DependencyStatus> = Vec::new();
    r.push(
        DependencyStatus {
            name: String::from_str("Python"),
            state: state_if(probe.python_exists),
            version: clone_opt(&v.python),
            updatable: false,
            update_available: false,
            latest_version: None,
            location: located_at(probe.python_exists, dirs.python_bin(os)),
        },
    );
    r.push(
        DependencyStatus {
            name: String::from_str("PyTorch"),
            state: state_if(probe.python_exists && v.torch.is_some()),
            version: clone_opt(&v.torch),
            updatable: false,
            update_available: false,
            latest_version: None,
            location: located_at(probe.torch_dir_exists, torch_dir),
        },
    );
    r.push(
        DependencyStatus {
            name: String::from_str("demucs"),
            state: state_if(v.demucs.is_some()),
            version: clone_opt(&v.demucs),
            updatable: true,
            update_available: false,
            latest_version: None,
            location: located_at(probe.demucs_dir_exists, demucs_dir),
        },
    );
    r.push(
        DependencyStatus {
            name: String::from_str("yt-dlp"),
            state: state_if(probe.ytdlp_exists),
            version: clone_opt(&v.ytdlp),
            updatable: true,
            update_available: false,
            latest_version: None,
            location: located_at(probe.ytdlp_exists, ytdlp_bin),
        },
    );
    let system = clone_opt(&probe.ffmpeg_system);
    let version = clone_opt(&probe.ffmpeg_version);
    r.push(ffmpeg_status(dirs, os, probe.ffmpeg_managed_exists, system, version));
    r
}

/// The managed ffmpeg binary: `<data>/bin/<ffmpeg name>`.
pub open spec fn managed_ffmpeg(dirs: AppDirs, os: TargetOs) -> Seq<char> {
    path_join(path_join(dirs.data_dir@, "bin"@, os), ffmpeg_name(os), os)
}

/// The ffmpeg binary the pipeline runs: the resolved one, or the bare
/// binary name (looked up on the search path) when none resolves.
pub open spec fn pipeline_ffmpeg_of(
    dirs: AppDirs,
    os: TargetOs,
    managed_exists: bool,
    system: Option<Seq<char>>,
) -> Seq<char> {
    match resolved_ffmpeg(os, managed_ffmpeg(dirs, os), managed_exists, system).0 {
        Some(p) => p,
        None => ffmpeg_name(os),
    }
}

/// The ffmpeg binary the pipeline runs, with the same priority as the
/// status shown for ffmpeg.
pub fn pipeline_ffmpeg(dirs: &AppDirs, os: TargetOs, managed_exists: bool, system: Option<String>) -> (p: String)
    ensures
        p@ == pipeline_ffmpeg_of(*dirs, os, managed_exists, opt_view(system)),
{
    let managed = join_path(dirs.bin_dir(os).as_str(), crate::deps::ffmpeg_binary_name(os), os);
    match resolved(os, managed, managed_exists, system) {
        (Some(p), _) => p,
        (None, _) => String::from_str(crate::deps::ffmpeg_binary_name(os)),
    }
}

/// The pipeline runs the ffmpeg the status advertises: whenever the ffmpeg
/// entry of `check_all` names a location, it is the binary that
/// `pipeline_ffmpeg` picks from the same look at the disk.
pub proof fn shown_ffmpeg_is_run(dirs: AppDirs, os: TargetOs, probe: DepProbe, statuses: Seq<DependencyStatus>)
    requires
        statuses.len() == 5,
        is_ffmpeg_status(
            statuses[4],
            resolved_ffmpeg(
                os,
                managed_ffmpeg(dirs, os),
                probe.ffmpeg_managed_exists,
                opt_view(probe.ffmpeg_system),
            ),
            opt_view(probe.ffmpeg_version),
        ),
    ensures
        statuses[4].location matches Some(loc) ==> loc@ == pipeline_ffmpeg_of(
            dirs,
            os,
            probe.ffmpeg_managed_exists,
            opt_view(probe.ffmpeg_system),
        ),
        statuses[4].location is None ==> statuses[4].state == DepState::Missing,
{
}

/// Every dependency is present (installed or from the system).
pub fn all_installed(statuses: &Vec<DependencyStatus>) -> (b: bool)
    ensures
        b == forall|i: int| 0 <= i < statuses@.len() ==> #[trigger] statuses@[i].state != DepState::Missing,
{
    let mut i: usize = 0;
    while i < statuses.len()
        invariant
            i <= statuses.len(),
            forall|j: int| 0 <= j < i ==> #[trigger] statuses@[j].state != DepState::Missing,
        decreases statuses.len() - i,
    {
        if statuses[i].state == DepState::Missing {
            return false;
        }
        i = i + 1;
    }
    true
}

/// Some dependency has an update available.
pub fn any_update_available(statuses: &Vec<DependencyStatus>) -> (b: bool)
    ensures
        b == exists|i: int| 0 <= i < statuses@.len() && #[trigger] statuses@[i].update_available,
{
    let mut i: usize = 0;
    while i < statuses.len()
        invariant
            i <= statuses.len(),
            forall|j: int| 0 <= j < i ==> !#[trigger] statuses@[j].update_available,
        decreases statuses.len() - i,
    {
        if statuses[i].update_available {
            return true;
        }
        i = i + 1;
    }
    false
}

/// The names of the dependencies with an update available, in order.
pub open spec fn names_with_update(statuses: Seq<DependencyStatus>) -> Seq<Seq<char>> {
    statuses.filter(|s: DependencyStatus| s.update_available).map_values(
        |s: DependencyStatus| s.name@,
    )
}

/// The names of the dependencies that have an update available.
pub fn updatable_names(statuses: &Vec<DependencyStatus>) -> (r: Vec<String>)
    ensures
        r@.map_values(|s: String| s@) == names_with_update(statuses@),
{
    let mut r: Vec<String> = Vec::new();
    let mut i: usize = 0;
    let ghost f = |s: DependencyStatus| s.update_available;
    while i < statuses.len()
        invariant
            i <= statuses.len(),
            f == (|s: DependencyStatus| s.update_available),
            r@.map_values(|s: String| s@) == statuses@.take(i as int).filter(f).map_values(
                |s: DependencyStatus| s.name@,
            ),
        decreases statuses.len() - i,
    {
        let ghost before = statuses@.take(i as int);
        assert(statuses@.take(i + 1) =~= before.push(statuses@[i as int]));
        proof {
            before.lemma_filter_push(statuses@[i as int], f);
        }
        if statuses[i].update_available {
            let ghost rb = r@;
            r.push(statuses[i].name.clone());
            assert(r@.map_values(|s: String| s@) =~= rb.map_values(|s: String| s@).push(
                statuses@[i as int].name@,
            ));
            assert(before.filter(f).push(statuses@[i as int]).map_values(
                |s: DependencyStatus| s.name@,
            ) =~= before.filter(f).map_values(|s: DependencyStatus| s.name@).push(
                statuses@[i as int].name@,
            ));
        }
        i = i + 1;
    }
    assert(statuses@.take(statuses.len() as int) =~= statuses@);
    r
}

/// The word the UI shows for a state.
pub fn dep_state_label(state: DepState) -> (l: &'static str)
    ensures
        l@ == match state {
            DepState::Installed => "installed"@,
            DepState::System => "system"@,
            DepState::Missing => "missing"@,
        },
{
    match state {
        DepState::Installed => "installed",
        DepState::System => "system",
        DepState::Missing => "missing",
    }
}

/// The version an `ffmpeg -version` run prints: its third word
/// (`ffmpeg version 7.1.1 Copyright ...` gives `7.1.1`).
pub fn version_token(text: &str) -> (r: Option<String>)
    ensures
        match r {
            Some(v) => crate::text::words(text@).len() > 2 && v@ == crate::text::words(text@)[2],
            None => crate::text::words(text@).len() <= 2,
        },
{
    let v = crate::text::chars_of(text);
    let ws = crate::text::words_of(&v);
    if ws.len() > 2 {
        Some(crate::text::string_of(&ws[2]))
    } else {
        None
    }
}

} // verus!
