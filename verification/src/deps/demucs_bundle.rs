//! The bundled Python + PyTorch + demucs environment: where it comes from,
//! where it lives, and how its installer's output is read.
use vstd::prelude::*;
use crate::dirs::AppDirs;
use crate::paths::{join_path, path_join};
use crate::platform::{TargetArch, TargetOs};
use crate::text::{
    chars_of, decimal, join_seqs, push_decimal, push_joined, push_str, starts_with_chars,
    string_of, trim, trim_str, views, words, words_of,
};

verus! {

/// Python version installed from python-build-standalone.
pub const PYTHON_VERSION: &'static str = "3.13.12";

/// Release tag of python-build-standalone that provides it.
pub const PYTHON_BUILD_TAG: &'static str = "20260203";

/// Pinned PyTorch version (the last line whose torchaudio writes WAV with
/// the self-contained soundfile backend).
pub const TORCH_PIN: &'static str = "torch==2.7.1";

/// Pinned torchaudio version, matching `TORCH_PIN`.
pub const TORCHAUDIO_PIN: &'static str = "torchaudio==2.7.1";

/// Package index of the CUDA-enabled PyTorch builds.
pub const TORCH_CUDA_INDEX: &'static str = "https://download.pytorch.org/whl/cu126";

/// The python-build-standalone target triple of a platform, for the
/// platforms it publishes builds for.
pub open spec fn triple_of(os: TargetOs, arch: TargetArch) -> Option<Seq<char>> {
    match (os, arch) {
        (TargetOs::MacOs, TargetArch::Aarch64) => Some("aarch64-apple-darwin"@),
        (TargetOs::MacOs, TargetArch::X86_64) => Some("x86_64-apple-darwin"@),
        (TargetOs::Windows, TargetArch::X86_64) => Some("x86_64-pc-windows-msvc"@),
        (TargetOs::Linux, TargetArch::X86_64) => Some("x86_64-unknown-linux-gnu"@),
        (TargetOs::Linux, TargetArch::Aarch64) => Some("aarch64-unknown-linux-gnu"@),
        (TargetOs::Windows, TargetArch::Aarch64) => None,
    }
}

/// The processor part of a target triple.
pub open spec fn triple_arch(arch: TargetArch) -> Seq<char> {
    match arch {
        TargetArch::X86_64 => "x86_64"@,
        TargetArch::Aarch64 => "aarch64"@,
    }
}

/// The vendor, system and ABI part of a target triple.
pub open spec fn triple_system(os: TargetOs) -> Seq<char> {
    match os {
        TargetOs::MacOs => "apple-darwin"@,
        TargetOs::Windows => "pc-windows-msvc"@,
        TargetOs::Linux => "unknown-linux-gnu"@,
    }
}

/// A Python build is published for every platform but Windows on ARM, and
/// its triple names the platform's processor, a hyphen, then its system; so
/// no two platforms share a download.
pub proof fn python_builds_cover_the_desktop_platforms(
    os: TargetOs,
    arch: TargetArch,
    other_os: TargetOs,
    other_arch: TargetArch,
)
    ensures
        triple_of(os, arch) is Some <==> !(os == TargetOs::Windows && arch
            == TargetArch::Aarch64),
        triple_of(os, arch) is Some ==> triple_of(os, arch) == Some(
            triple_arch(arch) + "-"@ + triple_system(os),
        ),
        triple_of(os, arch) is Some && triple_of(os, arch) == triple_of(other_os, other_arch) ==> os
            == other_os && arch == other_arch,
{
    reveal_strlit("x86_64");
    reveal_strlit("aarch64");
    reveal_strlit("apple-darwin");
    reveal_strlit("pc-windows-msvc");
    reveal_strlit("unknown-linux-gnu");
    reveal_strlit("-");
    reveal_strlit("aarch64-apple-darwin");
    reveal_strlit("x86_64-apple-darwin");
    reveal_strlit("x86_64-pc-windows-msvc");
    reveal_strlit("x86_64-unknown-linux-gnu");
    reveal_strlit("aarch64-unknown-linux-gnu");
    assert("aarch64-apple-darwin"@ =~= "aarch64"@ + "-"@ + "apple-darwin"@);
    assert("x86_64-apple-darwin"@ =~= "x86_64"@ + "-"@ + "apple-darwin"@);
    assert("x86_64-pc-windows-msvc"@ =~= "x86_64"@ + "-"@ + "pc-windows-msvc"@);
    assert("x86_64-unknown-linux-gnu"@ =~= "x86_64"@ + "-"@ + "unknown-linux-gnu"@);
    assert("aarch64-unknown-linux-gnu"@ =~= "aarch64"@ + "-"@ + "unknown-linux-gnu"@);
}

/// Platform triple for python-build-standalone.
pub fn python_triple(os: TargetOs, arch: TargetArch) -> (t: Option<&'static str>)
    ensures
        match t {
            Some(s) => triple_of(os, arch) == Some(s@),
            None => triple_of(os, arch) is None,
        },
{
    match (os, arch) {
        (TargetOs::MacOs, TargetArch::Aarch64) => Some("aarch64-apple-darwin"),
        (TargetOs::MacOs, TargetArch::X86_64) => Some("x86_64-apple-darwin"),
        (TargetOs::Windows, TargetArch::X86_64) => Some("x86_64-pc-windows-msvc"),
        (TargetOs::Linux, TargetArch::X86_64) => Some("x86_64-unknown-linux-gnu"),
        (TargetOs::Linux, TargetArch::Aarch64) => Some("aarch64-unknown-linux-gnu"),
        (TargetOs::Windows, TargetArch::Aarch64) => None,
    }
}

/// The download URL of the stripped install-only Python build for a
/// triple.
pub open spec fn python_url_for(triple: Seq<char>) -> Seq<char> {
    "https://github.com/astral-sh/python-build-standalone/releases/download/"@ + PYTHON_BUILD_TAG@
        + "/cpython-"@ + PYTHON_VERSION@ + "+"@ + PYTHON_BUILD_TAG@ + "-"@ + triple
        + "-install_only_stripped.tar.gz"@
}

/// Build the download URL for python-build-standalone.
pub fn python_download_url(os: TargetOs, arch: TargetArch) -> (u: Option<String>)
    ensures
        match triple_of(os, arch) {
            Some(t) => u matches Some(s) && s@ == python_url_for(t),
            None => u is None,
        },
{
    let triple = match python_triple(os, arch) {
        Some(t) => t,
        None => {
            return None;
        },
    };
    let mut u = String::new();
    push_str(&mut u, "https://github.com/astral-sh/python-build-standalone/releases/download/");
    push_str(&mut u, PYTHON_BUILD_TAG);
    push_str(&mut u, "/cpython-");
    push_str(&mut u, PYTHON_VERSION);
    push_str(&mut u, "+");
    push_str(&mut u, PYTHON_BUILD_TAG);
    push_str(&mut u, "-");
    push_str(&mut u, triple);
    push_str(&mut u, "-install_only_stripped.tar.gz");
    Some(u)
}

/// Where the bundled Python keeps its packages: `Lib/site-packages` on
/// Windows, `lib/python3.13/site-packages` elsewhere, under the Python
/// root in the demucs directory.
pub open spec fn site_packages_of(data_dir: Seq<char>, os: TargetOs) -> Seq<char> {
    let root = path_join(path_join(data_dir, "demucs"@, os), "python"@, os);
    if os == TargetOs::Windows {
        path_join(path_join(root, "Lib"@, os), "site-packages"@, os)
    } else {
        path_join(path_join(path_join(root, "lib"@, os), "python3.13"@, os), "site-packages"@, os)
    }
}

/// The site-packages directory of the bundled Python.
pub fn site_packages_dir(dirs: &AppDirs, os: TargetOs) -> (p: String)
    ensures
        p@ == site_packages_of(dirs.data_dir@, os),
{
    let root = join_path(dirs.demucs_dir(os).as_str(), "python", os);
    if os == TargetOs::Windows {
        join_path(join_path(root.as_str(), "Lib", os).as_str(), "site-packages", os)
    } else {
        join_path(
            join_path(join_path(root.as_str(), "lib", os).as_str(), "python3.13", os).as_str(),
            "site-packages", os)
    }
}

/// The pip arguments that install the pinned PyTorch: from PyPI on macOS,
/// from the CUDA index elsewhere (those builds fall back to the CPU).
pub fn torch_install_args(os: TargetOs) -> (a: Vec<&'static str>)
    ensures
        os == TargetOs::MacOs ==> a@.len() == 2,
        os != TargetOs::MacOs ==> a@.len() == 4 && a@[2]@ == "--index-url"@ && a@[3]@
            == TORCH_CUDA_INDEX@,
        a@[0]@ == TORCH_PIN@,
        a@[1]@ == TORCHAUDIO_PIN@,
{
    let mut a: Vec<&'static str> = Vec::new();
    a.push(TORCH_PIN);
    a.push(TORCHAUDIO_PIN);
    if os != TargetOs::MacOs {
        a.push("--index-url");
        a.push(TORCH_CUDA_INDEX);
    }
    a
}

/// The line a pip output line is forwarded as, if it is a progress line:
/// the trimmed line when it starts with `Downloading `, `Collecting ` or
/// `Installing collected packages`.
pub open spec fn pip_progress_of(line: Seq<char>) -> Option<Seq<char>> {
    let t = trim(line);
    if "Downloading "@.is_prefix_of(t) || "Collecting "@.is_prefix_of(t)
        || "Installing collected packages"@.is_prefix_of(t) {
        Some(t)
    } else {
        None
    }
}

/// Inspect a pip output line and return what to show as progress, if it is
/// worth showing.
pub fn pip_progress_line(line: &str) -> (r: Option<String>)
    ensures
        match r {
            Some(s) => pip_progress_of(line@) == Some(s@),
            None => pip_progress_of(line@) is None,
        },
{
    let t = trim_str(line);
    let v = chars_of(t);
    if starts_with_chars(&v, "Downloading ") || starts_with_chars(&v, "Collecting ")
        || starts_with_chars(&v, "Installing collected packages") {
        Some(string_of(&v))
    } else {
        None
    }
}

/// The Python snippet that prints the version of `package`.
pub open spec fn version_snippet(package: Seq<char>) -> Seq<char> {
    "import "@ + package + "; print("@ + package + ".__version__)"@
}

/// The Python snippet that prints the version of `package`.
pub fn python_version_code(package: &str) -> (c: String)
    ensures
        c@ == version_snippet(package@),
{
    let mut c = String::new();
    push_str(&mut c, "import ");
    push_str(&mut c, package);
    push_str(&mut c, "; print(");
    push_str(&mut c, package);
    push_str(&mut c, ".__version__)");
    c
}

/// The last whitespace-separated word of a tool's output (`Python 3.13.12`
/// gives `3.13.12`).
pub fn last_word(text: &str) -> (r: Option<String>)
    ensures
        match r {
            Some(s) => words(text@).len() > 0 && s@ == words(text@).last(),
            None => words(text@).len() == 0,
        },
{
    let v = chars_of(text);
    let ws = words_of(&v);
    if ws.len() == 0 {
        None
    } else {
        Some(string_of(&ws[ws.len() - 1]))
    }
}

/// Mebibytes, rounded down.
pub open spec fn mib(bytes: nat) -> nat {
    bytes / (1024 * 1024)
}

/// The status line while Python downloads.
pub fn python_download_message(downloaded: u64, total: u64) -> (m: String)
    ensures
        m@ == "Downloading Python ("@ + decimal(mib(downloaded as nat)) + "/"@ + decimal(
            mib(total as nat),
        ) + " MB)..."@,
{
    let mut m = String::new();
    push_str(&mut m, "Downloading Python (");
    push_decimal(&mut m, downloaded / (1024 * 1024));
    push_str(&mut m, "/");
    push_decimal(&mut m, total / (1024 * 1024));
    push_str(&mut m, " MB)...");
    m
}

/// The error text of a failed pip install: its arguments joined by spaces
/// and its trimmed stderr.
pub open spec fn pip_failure_text(args: Seq<Seq<char>>, stderr: Seq<char>) -> Seq<char> {
    "pip install "@ + join_seqs(args, " "@) + " failed: "@ + trim(stderr)
}

/// The error message of a failed pip install.
pub fn pip_failure_message(args: &Vec<&str>, stderr: &str) -> (m: String)
    ensures
        m@ == pip_failure_text(args@.map_values(|a: &str| a@), stderr@),
{
    let mut pieces: Vec<Vec<char>> = Vec::new();
    let mut i: usize = 0;
    while i < args.len()
        invariant
            i <= args.len(),
            views(pieces@) == args@.take(i as int).map_values(|a: &str| a@),
        decreases args.len() - i,
    {
        let ghost before = views(pieces@);
        pieces.push(chars_of(args[i]));
        assert(views(pieces@) =~= before.push(args@[i as int]@));
        i = i + 1;
        assert(args@.take(i as int).map_values(|a: &str| a@) =~= before.push(args@[i - 1]@));
    }
    assert(args@.take(args.len() as int) =~= args@);
    let mut m = String::new();
    push_str(&mut m, "pip install ");
    push_joined(&mut m, &pieces, 0, pieces.len(), " ");
    assert(views(pieces@).subrange(0, pieces.len() as int) =~= views(pieces@));
    push_str(&mut m, " failed: ");
    push_str(&mut m, trim_str(stderr));
    m
}

/// What installing the demucs environment has to do.
#[derive(Clone, Copy, Debug, PartialEq, Eq, Structural)]
pub enum InstallPlan {
    /// Python and demucs are there: nothing to do.
    Ready,
    /// Python is there but demucs is not: install demucs only.
    DemucsOnly,
    /// Download Python, then install PyTorch and demucs.
    Full,
}

/// The install plan for what is on disk.
pub fn install_plan(python_exists: bool, demucs_recorded: bool) -> (p: InstallPlan)
    ensures
        p == (if !python_exists {
            InstallPlan::Full
        } else if demucs_recorded {
            InstallPlan::Ready
        } else {
            InstallPlan::DemucsOnly
        }),
{
    if !python_exists {
        InstallPlan::Full
    } else if demucs_recorded {
        InstallPlan::Ready
    } else {
        InstallPlan::DemucsOnly
    }
}

} // verus!
