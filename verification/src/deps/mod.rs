//! Runtime dependency management: the decisions behind installing,
//! checking and updating the external tools.
pub mod archive;
pub mod demucs_bundle;
pub mod ffmpeg;
pub mod github_release;
pub mod status;
pub mod update_check;
pub mod version_compare;
pub mod versions;
pub mod ytdlp;

pub use status::{DepState, DependencyStatus};
pub use version_compare::version_eq_normalized;

use vstd::prelude::*;
use crate::platform::TargetOs;
use crate::deps::version_compare::{opt_version_eq, versions_match};
use crate::deps::status::opt_view;
use crate::deps::ffmpeg::ffprobe_name;
use crate::deps::ytdlp::ytdlp_asset;

verus! {

/// File name of the yt-dlp binary.
pub open spec fn ytdlp_name(os: TargetOs) -> Seq<char> {
    if os == TargetOs::Windows {
        "yt-dlp.exe"@
    } else {
        "yt-dlp"@
    }
}

/// File name of the ffmpeg binary.
pub open spec fn ffmpeg_name(os: TargetOs) -> Seq<char> {
    if os == TargetOs::Windows {
        "ffmpeg.exe"@
    } else {
        "ffmpeg"@
    }
}

/// File name of the yt-dlp binary on `os`.
pub fn ytdlp_binary_name(os: TargetOs) -> (n: &'static str)
    ensures
        n@ == ytdlp_name(os),
{
    if os == TargetOs::Windows {
        "yt-dlp.exe"
    } else {
        "yt-dlp"
    }
}

/// File name of the ffmpeg binary on `os`.
pub fn ffmpeg_binary_name(os: TargetOs) -> (n: &'static str)
    ensures
        n@ == ffmpeg_name(os),
{
    if os == TargetOs::Windows {
        "ffmpeg.exe"
    } else {
        "ffmpeg"
    }
}

/// What a binary's file name adds to the tool's name: `.exe` on Windows,
/// nothing elsewhere.
pub open spec fn exe_suffix(os: TargetOs) -> Seq<char> {
    if os == TargetOs::Windows {
        ".exe"@
    } else {
        Seq::<char>::empty()
    }
}

/// Each managed tool's binary is named after the tool, with `.exe` added on
/// Windows; the yt-dlp release asset for Windows is that binary itself, and
/// no two systems download the same yt-dlp asset.
pub proof fn binary_names_follow_the_platform(os: TargetOs, other: TargetOs)
    ensures
        ytdlp_name(os) == "yt-dlp"@ + exe_suffix(os),
        ffmpeg_name(os) == "ffmpeg"@ + exe_suffix(os),
        ffprobe_name(os) == "ffprobe"@ + exe_suffix(os),
        ytdlp_asset(TargetOs::Windows) == ytdlp_name(TargetOs::Windows),
        ytdlp_asset(os) == ytdlp_asset(other) ==> os == other,
{
    reveal_strlit("yt-dlp");
    reveal_strlit("ffmpeg");
    reveal_strlit("ffprobe");
    reveal_strlit(".exe");
    reveal_strlit("yt-dlp.exe");
    reveal_strlit("ffmpeg.exe");
    reveal_strlit("ffprobe.exe");
    reveal_strlit("yt-dlp_macos");
    reveal_strlit("yt-dlp_linux");
    assert("yt-dlp.exe"@ =~= "yt-dlp"@ + ".exe"@);
    assert("ffmpeg.exe"@ =~= "ffmpeg"@ + ".exe"@);
    assert("ffprobe.exe"@ =~= "ffprobe"@ + ".exe"@);
    assert("yt-dlp"@ =~= "yt-dlp"@ + Seq::<char>::empty());
    assert("ffmpeg"@ =~= "ffmpeg"@ + Seq::<char>::empty());
    assert("ffprobe"@ =~= "ffprobe"@ + Seq::<char>::empty());
    assert("yt-dlp_macos"@[7] != "yt-dlp_linux"@[7]);
}

/// The index of the first status named `name`, if any.
pub open spec fn first_named(statuses: Seq<DependencyStatus>, name: Seq<char>) -> Option<int> {
    if exists|i: int| 0 <= i < statuses.len() && statuses[i].name@ == name {
        Some(
            choose|i: int|
                0 <= i < statuses.len() && statuses[i].name@ == name && forall|j: int|
                    0 <= j < i ==> statuses[j].name@ != name,
        )
    } else {
        None
    }
}

/// Whether `i` is the first index whose status is named `name`.
pub open spec fn is_first_named(statuses: Seq<DependencyStatus>, name: Seq<char>, i: int) -> bool {
    &&& 0 <= i < statuses.len()
    &&& statuses[i].name@ == name
    &&& forall|j: int| 0 <= j < i ==> statuses[j].name@ != name
}

/// The status `d` after learning that `latest` is the newest version: the
/// latest version is recorded, and an installed dependency whose version
/// does not match it is marked as having an update.
pub open spec fn with_latest(d: DependencyStatus, e: DependencyStatus, latest: Seq<char>) -> bool {
    &&& e.name == d.name
    &&& e.state == d.state
    &&& e.version == d.version
    &&& e.updatable == d.updatable
    &&& e.location == d.location
    &&& opt_view(e.latest_version) == Some(latest)
    &&& e.update_available == (d.update_available || (d.state != DepState::Missing && !(
    match d.version {
        Some(v) => versions_match(v@, latest),
        None => false,
    })))
}

/// Whether `after` is `before` with the first status named `name` updated
/// by `with_latest`, or unchanged when there is none.
pub open spec fn latest_applied(
    before: Seq<DependencyStatus>,
    after: Seq<DependencyStatus>,
    name: Seq<char>,
    latest: Seq<char>,
) -> bool {
    &&& after.len() == before.len()
    &&& match first_named(before, name) {
        Some(k) => {
            &&& with_latest(before[k], after[k], latest)
            &&& forall|j: int| 0 <= j < before.len() && j != k ==> after[j] == before[j]
        },
        None => after == before,
    }
}

proof fn lemma_first_named(statuses: Seq<DependencyStatus>, name: Seq<char>, i: int)
    requires
        is_first_named(statuses, name, i),
    ensures
        first_named(statuses, name) == Some(i),
{
    let k = choose|k: int|
        0 <= k < statuses.len() && statuses[k].name@ == name && forall|j: int|
            0 <= j < k ==> statuses[j].name@ != name;
    assert(0 <= k < statuses.len() && statuses[k].name@ == name);
    if k < i {
        assert(statuses[k].name@ != name);
    }
    if k > i {
        assert(statuses[i].name@ != name);
    }
}

/// Update the matching status entry's `latest_version` and
/// `update_available` flag using normalized version comparison.
pub fn apply_latest(statuses: &mut Vec<DependencyStatus>, name: &str, latest: &str)
    ensures
        latest_applied(old(statuses)@, final(statuses)@, name@, latest@),
{
    let mut i: usize = 0;
    while i < statuses.len()
        invariant
            i <= statuses.len(),
            statuses@ == old(statuses)@,
            forall|j: int| 0 <= j < i ==> statuses@[j].name@ != name@,
        decreases statuses.len() - i,
    {
        if crate::text::chars_equal(
            &crate::text::chars_of(statuses[i].name.as_str()),
            &crate::text::chars_of(name),
        ) {
            proof {
                lemma_first_named(statuses@, name@, i as int);
            }
            statuses[i].latest_version = Some(String::from_str(latest));
            let newer = {
                let d = &statuses[i];
                d.state != DepState::Missing && !opt_version_eq(
                    match &d.version {
                        Some(v) => Some(v.as_str()),
                        None => None,
                    },
                    latest,
                )
            };
            if newer {
                statuses[i].update_available = true;
            }
            return ;
        }
        i = i + 1;
    }
    assert(first_named(statuses@, name@) is None);
}

/// Whether the upstream ffmpeg version is worth checking, and an update
/// worth making: only when the first ffmpeg entry is a managed install
/// (system installs are the user's to manage).
pub fn ffmpeg_needs_check(statuses: &Vec<DependencyStatus>) -> (b: bool)
    ensures
        b == (match first_named(statuses@, "ffmpeg"@) {
            Some(k) => statuses@[k].state == DepState::Installed,
            None => false,
        }),
{
    proof {
        reveal_strlit("ffmpeg");
    }
    let target = crate::text::chars_of("ffmpeg");
    let mut i: usize = 0;
    while i < statuses.len()
        invariant
            i <= statuses.len(),
            target@ == "ffmpeg"@,
            forall|j: int| 0 <= j < i ==> statuses@[j].name@ != "ffmpeg"@,
        decreases statuses.len() - i,
    {
        if crate::text::chars_equal(&crate::text::chars_of(statuses[i].name.as_str()), &target) {
            proof {
                lemma_first_named(statuses@, "ffmpeg"@, i as int);
            }
            return statuses[i].state == DepState::Installed;
        }
        i = i + 1;
    }
    false
}

/// Whether the demucs environment is ready: the Python binary exists and
/// both the torch and demucs versions are recorded (a partial install reads
/// as not ready, so the next full install repairs it).
pub fn demucs_ready(python_exists: bool, versions: &crate::deps::versions::InstalledVersions) -> (b: bool)
    ensures
        b == (python_exists && versions.torch is Some && versions.demucs is Some),
{
    python_exists && versions.torch.is_some() && versions.demucs.is_some()
}


/// A dependency that can be updated on request.
#[derive(Clone, Copy, Debug, PartialEq, Eq, Structural)]
pub enum UpdateTarget {
    Demucs,
    YtDlp,
    Ffmpeg,
}

/// The update a dependency name asks for: `demucs`, `yt-dlp` and `ffmpeg`
/// can be updated; any other name asks for nothing.
pub fn update_target(name: &str) -> (t: Option<UpdateTarget>)
    ensures
        t == (if name@ == "demucs"@ {
            Some(UpdateTarget::Demucs)
        } else if name@ == "yt-dlp"@ {
            Some(UpdateTarget::YtDlp)
        } else if name@ == "ffmpeg"@ {
            Some(UpdateTarget::Ffmpeg)
        } else {
            None
        }),
{
    let v = crate::text::chars_of(name);
    if crate::text::chars_equal(&v, &crate::text::chars_of("demucs")) {
        Some(UpdateTarget::Demucs)
    } else if crate::text::chars_equal(&v, &crate::text::chars_of("yt-dlp")) {
        Some(UpdateTarget::YtDlp)
    } else if crate::text::chars_equal(&v, &crate::text::chars_of("ffmpeg")) {
        Some(UpdateTarget::Ffmpeg)
    } else {
        None
    }
}

/// The status line while a dependency updates: `Updating <name>...`.
pub fn updating_message(name: &str) -> (m: String)
    ensures
        m@ == "Updating "@ + name@ + "..."@,
{
    let mut m = String::new();
    crate::text::push_str(&mut m, "Updating ");
    crate::text::push_str(&mut m, name);
    crate::text::push_str(&mut m, "...");
    m
}


} // verus!
