//! The managed ffmpeg install: which build each platform downloads, when an
//! install counts as complete, and which files of the Windows archive are
//! kept.
use vstd::prelude::*;
use crate::platform::{TargetArch, TargetOs};
use crate::text::{
    chars_of, contains_seq, ends_with_chars, ends_with_seq, occurs_at, starts_with_chars,
    string_of_range,
};

verus! {

/// Release tag of ffmpeg-static that the macOS/Linux download is pinned to.
pub const FFMPEG_STATIC_TAG: &'static str = "b6.1.1";

/// File name of the ffprobe binary.
pub open spec fn ffprobe_name(os: TargetOs) -> Seq<char> {
    if os == TargetOs::Windows {
        "ffprobe.exe"@
    } else {
        "ffprobe"@
    }
}

/// File name of the ffprobe binary on `os`.
pub fn ffprobe_binary_name(os: TargetOs) -> (n: &'static str)
    ensures
        n@ == ffprobe_name(os),
{
    if os == TargetOs::Windows {
        "ffprobe.exe"
    } else {
        "ffprobe"
    }
}

/// The ffmpeg-static asset names of a platform, for ffmpeg and ffprobe
/// (Windows downloads the shared build instead).
pub open spec fn static_asset_names(os: TargetOs, arch: TargetArch) -> Option<(Seq<char>, Seq<char>)> {
    match (os, arch) {
        (TargetOs::MacOs, TargetArch::Aarch64) => Some(("ffmpeg-darwin-arm64"@, "ffprobe-darwin-arm64"@)),
        (TargetOs::MacOs, TargetArch::X86_64) => Some(("ffmpeg-darwin-x64"@, "ffprobe-darwin-x64"@)),
        (TargetOs::Linux, TargetArch::X86_64) => Some(("ffmpeg-linux-x64"@, "ffprobe-linux-x64"@)),
        (TargetOs::Linux, TargetArch::Aarch64) => Some(("ffmpeg-linux-arm64"@, "ffprobe-linux-arm64"@)),
        _ => None,
    }
}

/// The platform word of the ffmpeg-static asset names, for the platforms
/// that download them (Windows takes the shared build instead).
pub open spec fn static_platform_word(os: TargetOs) -> Option<Seq<char>> {
    match os {
        TargetOs::MacOs => Some("darwin"@),
        TargetOs::Linux => Some("linux"@),
        TargetOs::Windows => None,
    }
}

/// The architecture word of an ffmpeg-static asset name.
pub open spec fn static_arch_word(arch: TargetArch) -> Seq<char> {
    match arch {
        TargetArch::X86_64 => "x64"@,
        TargetArch::Aarch64 => "arm64"@,
    }
}

/// Every platform but Windows downloads ffmpeg-static, and both of its
/// assets are built for that platform and its processor: the tool's name, a
/// hyphen, the platform word, a hyphen, the architecture word.
pub proof fn static_assets_match_the_platform(os: TargetOs, arch: TargetArch)
    ensures
        static_asset_names(os, arch) is None <==> os == TargetOs::Windows,
        static_asset_names(os, arch) == (match static_platform_word(os) {
            Some(p) => Some(
                (
                    "ffmpeg-"@ + p + "-"@ + static_arch_word(arch),
                    "ffprobe-"@ + p + "-"@ + static_arch_word(arch),
                ),
            ),
            None => None,
        }),
{
    reveal_strlit("ffmpeg-");
    reveal_strlit("ffprobe-");
    reveal_strlit("-");
    reveal_strlit("darwin");
    reveal_strlit("linux");
    reveal_strlit("x64");
    reveal_strlit("arm64");
    reveal_strlit("ffmpeg-darwin-arm64");
    reveal_strlit("ffprobe-darwin-arm64");
    reveal_strlit("ffmpeg-darwin-x64");
    reveal_strlit("ffprobe-darwin-x64");
    reveal_strlit("ffmpeg-linux-x64");
    reveal_strlit("ffprobe-linux-x64");
    reveal_strlit("ffmpeg-linux-arm64");
    reveal_strlit("ffprobe-linux-arm64");
    assert("ffmpeg-darwin-arm64"@ =~= "ffmpeg-"@ + "darwin"@ + "-"@ + "arm64"@);
    assert("ffprobe-darwin-arm64"@ =~= "ffprobe-"@ + "darwin"@ + "-"@ + "arm64"@);
    assert("ffmpeg-darwin-x64"@ =~= "ffmpeg-"@ + "darwin"@ + "-"@ + "x64"@);
    assert("ffprobe-darwin-x64"@ =~= "ffprobe-"@ + "darwin"@ + "-"@ + "x64"@);
    assert("ffmpeg-linux-x64"@ =~= "ffmpeg-"@ + "linux"@ + "-"@ + "x64"@);
    assert("ffprobe-linux-x64"@ =~= "ffprobe-"@ + "linux"@ + "-"@ + "x64"@);
    assert("ffmpeg-linux-arm64"@ =~= "ffmpeg-"@ + "linux"@ + "-"@ + "arm64"@);
    assert("ffprobe-linux-arm64"@ =~= "ffprobe-"@ + "linux"@ + "-"@ + "arm64"@);
}

/// The ffmpeg-static asset names (ffmpeg, ffprobe) of a platform.
pub fn static_asset_name(os: TargetOs, arch: TargetArch) -> (r: Option<(&'static str, &'static str)>)
    ensures
        match r {
            Some((a, b)) => static_asset_names(os, arch) == Some((a@, b@)),
            None => static_asset_names(os, arch) is None,
        },
{
    match (os, arch) {
        (TargetOs::MacOs, TargetArch::Aarch64) => Some(("ffmpeg-darwin-arm64", "ffprobe-darwin-arm64")),
        (TargetOs::MacOs, TargetArch::X86_64) => Some(("ffmpeg-darwin-x64", "ffprobe-darwin-x64")),
        (TargetOs::Linux, TargetArch::X86_64) => Some(("ffmpeg-linux-x64", "ffprobe-linux-x64")),
        (TargetOs::Linux, TargetArch::Aarch64) => Some(("ffmpeg-linux-arm64", "ffprobe-linux-arm64")),
        _ => None,
    }
}

/// Whether the managed ffmpeg installation is complete: both binaries, and
/// on Windows also the shared libraries.
pub fn is_install_complete(os: TargetOs, has_ffmpeg: bool, has_ffprobe: bool, has_shared_libs: bool) -> (b: bool)
    ensures
        b == (has_ffmpeg && has_ffprobe && (os != TargetOs::Windows || has_shared_libs)),
{
    if !has_ffmpeg || !has_ffprobe {
        return false;
    }
    if os == TargetOs::Windows && !has_shared_libs {
        return false;
    }
    true
}

/// Whether a file name is an FFmpeg shared library (`avutil-*.dll`).
pub open spec fn is_shared_lib(name: Seq<char>) -> bool {
    "avutil-"@.is_prefix_of(name) && ends_with_seq(name, ".dll"@)
}

/// Whether any of the names in a directory listing is an FFmpeg shared
/// library.
pub fn has_shared_libs(names: &Vec<String>) -> (b: bool)
    ensures
        b == exists|i: int| 0 <= i < names@.len() && is_shared_lib(#[trigger] names@[i]@),
{
    let mut i: usize = 0;
    while i < names.len()
        invariant
            i <= names.len(),
            forall|j: int| 0 <= j < i ==> !is_shared_lib(#[trigger] names@[j]@),
        decreases names.len() - i,
    {
        let v = chars_of(names[i].as_str());
        if starts_with_chars(&v, "avutil-") && ends_with_chars(&v, ".dll") {
            return true;
        }
        i = i + 1;
    }
    false
}

/// Whether `i` is where `t` first occurs in `s`.
pub open spec fn first_occurrence_at(s: Seq<char>, t: Seq<char>, i: int) -> bool {
    occurs_at(s, t, i) && forall|j: int| 0 <= j < i ==> !occurs_at(s, t, j)
}

/// The file a zip entry puts into the bin directory: the text after the
/// first `/bin/` in its path, when that is non-empty and holds no `/`.
pub open spec fn bin_entry_name(path: Seq<char>) -> Option<Seq<char>> {
    if exists|i: int| first_occurrence_at(path, "/bin/"@, i) {
        let i = choose|i: int| first_occurrence_at(path, "/bin/"@, i);
        let f = path.skip(i + 5);
        if f.len() > 0 && !f.contains('/') {
            Some(f)
        } else {
            None
        }
    } else {
        None
    }
}

/// The name under which a zip entry is extracted into the bin directory,
/// if it is a file directly under a `bin/` directory.
pub fn zip_bin_entry(path: &str) -> (r: Option<String>)
    ensures
        match r {
            Some(f) => bin_entry_name(path@) == Some(f@),
            None => bin_entry_name(path@) is None,
        },
{
    proof {
        reveal_strlit("/bin/");
    }
    let v = chars_of(path);
    let n = v.len();
    if n < 5 {
        assert forall|i: int| !first_occurrence_at(path@, "/bin/"@, i) by {}
        return None;
    }
    let mut i: usize = 0;
    assert("/bin/"@ =~= seq!['/', 'b', 'i', 'n', '/']);
    while i < n - 4
        invariant
            v@ == path@,
            "/bin/"@ == seq!['/', 'b', 'i', 'n', '/'],
            n == v.len(),
            n >= 5,
            i <= n - 4,
            forall|j: int| 0 <= j < i ==> !occurs_at(path@, "/bin/"@, j),
        decreases n - i,
    {
        if v[i] == '/' && v[i + 1] == 'b' && v[i + 2] == 'i' && v[i + 3] == 'n' && v[i + 4] == '/' {
            assert(path@.subrange(i as int, i + 5) =~= "/bin/"@);
            assert(first_occurrence_at(path@, "/bin/"@, i as int));
            assert forall|k: int| first_occurrence_at(path@, "/bin/"@, k) implies k == i by {
                if k > i {
                    assert(occurs_at(path@, "/bin/"@, i as int));
                }
            }
            let start = i + 5;
            assert(bin_entry_name(path@) == (if path@.skip(start as int).len() > 0
                && !path@.skip(start as int).contains('/') {
                Some(path@.skip(start as int))
            } else {
                None
            }));
            let mut j = start;
            while j < n
                invariant
                    start <= j <= n == v.len(),
                    v@ == path@,
                    bin_entry_name(path@) == (if path@.skip(start as int).len() > 0
                        && !path@.skip(start as int).contains('/') {
                        Some(path@.skip(start as int))
                    } else {
                        None
                    }),
                    forall|k: int| start <= k < j ==> v@[k] != '/',
                decreases n - j,
            {
                if v[j] == '/' {
                    assert(path@.skip(start as int)[j - start] == '/');
                    assert(path@.skip(start as int).contains('/'));
                    return None;
                }
                j = j + 1;
            }
            if start == n {
                assert(path@.skip(start as int).len() == 0);
                return None;
            }
            assert(!path@.skip(start as int).contains('/')) by {
                if path@.skip(start as int).contains('/') {
                    let k = choose|k: int|
                        0 <= k < path@.skip(start as int).len() && path@.skip(start as int)[k]
                            == '/';
                    assert(v@[k + start] == '/');
                }
            }
            let f = string_of_range(&v, start, n);
            assert(v@.subrange(start as int, n as int) =~= path@.skip(start as int));
            return Some(f);
        }
        assert(!occurs_at(path@, "/bin/"@, i as int)) by {
            if occurs_at(path@, "/bin/"@, i as int) {
                let w = path@.subrange(i as int, i + 5);
                assert(w[0] == '/' && w[1] == 'b' && w[2] == 'i' && w[3] == 'n' && w[4] == '/');
            }
        }
        i = i + 1;
    }
    assert forall|k: int| !first_occurrence_at(path@, "/bin/"@, k) by {
        if 0 <= k < i {
        } else if k >= i {
            assert(!occurs_at(path@, "/bin/"@, k));
        }
    }
    None
}

/// The version the pinned ffmpeg-static tag stands for: the tag with its
/// leading `b`s removed.
pub open spec fn strip_leading_b(s: Seq<char>) -> Seq<char>
    decreases s.len(),
{
    if s.len() > 0 && s[0] == 'b' {
        strip_leading_b(s.drop_first())
    } else {
        s
    }
}

/// Where the ffmpeg in use comes from.
pub enum FfmpegSource {
    /// The complete managed install.
    Managed,
    /// An ffmpeg found on the system PATH, at this path.
    System(String),
    /// Nothing usable: download the managed build.
    Download,
}

/// The ffmpeg to use: a complete managed install first, then one on the
/// system PATH, else a download.
pub fn ffmpeg_source(install_complete: bool, on_path: Option<String>) -> (s: FfmpegSource)
    ensures
        install_complete ==> s is Managed,
        !install_complete ==> match on_path {
            Some(p) => s matches FfmpegSource::System(q) && q@ == p@,
            None => s is Download,
        },
{
    if install_complete {
        return FfmpegSource::Managed;
    }
    match on_path {
        Some(p) => FfmpegSource::System(p),
        None => FfmpegSource::Download,
    }
}

} // verus!
