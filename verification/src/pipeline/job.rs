//! A job's source and the names derived from it.
use vstd::prelude::*;
use crate::paths::{file_stem, join_path, path_file_stem, path_join};
use crate::platform::TargetOs;
use crate::text::{chars_of, lowercase_of, push_char, push_str, to_lowercase};

verus! {

/// Where the audio originates from.
#[derive(Clone, Debug)]
pub enum JobSource {
    Youtube { video_id: String, title: String },
    LocalFile { path: String },
}

/// The name a source is shown under: a video's title, or a local file's
/// stem (`unknown` when the path names no file).
pub open spec fn display_name_of(s: JobSource, os: TargetOs) -> Seq<char> {
    match s {
        JobSource::Youtube { title, .. } => title@,
        JobSource::LocalFile { path } => match path_file_stem(path@, os) {
            Some(n) => n,
            None => "unknown"@,
        },
    }
}

/// The characters that cannot stand in a folder name on every platform.
pub open spec fn is_unsafe_for_folder(c: char) -> bool {
    c == '/' || c == '\\' || c == ':' || c == '*' || c == '?' || c == '"' || c == '<' || c == '>'
        || c == '|'
}

/// `s` with every unsafe character replaced by `_`.
pub open spec fn sanitize_folder(s: Seq<char>) -> Seq<char> {
    s.map_values(|c: char| if is_unsafe_for_folder(c) { '_' } else { c })
}

/// The output folder name of a title and optional video id:
/// `"{title} ({video_id})"` for a video, the title alone otherwise,
/// lowercased, with unsafe characters replaced by `_`.
pub open spec fn folder_name(title: Seq<char>, video_id: Option<Seq<char>>) -> Seq<char> {
    let base = match video_id {
        Some(id) => title + " ("@ + id + ")"@,
        None => title,
    };
    sanitize_folder(lowercase_of(base))
}

impl JobSource {
    /// The name this source is shown under.
    pub fn display_name(&self, os: TargetOs) -> (n: String)
        ensures
            n@ == display_name_of(*self, os),
    {
        match self {
            JobSource::Youtube { title, .. } => title.clone(),
            JobSource::LocalFile { path } => match file_stem(path.as_str(), os) {
                Some(s) => s,
                None => String::from_str("unknown"),
            },
        }
    }

    /// The YouTube video id, for a video source.
    pub fn video_id(&self) -> (r: Option<&str>)
        ensures
            match *self {
                JobSource::Youtube { video_id, .. } => r matches Some(v) && v@ == video_id@,
                JobSource::LocalFile { .. } => r is None,
            },
    {
        match self {
            JobSource::Youtube { video_id, .. } => Some(video_id.as_str()),
            JobSource::LocalFile { .. } => None,
        }
    }

    /// The key its thumbnail is cached under: the video id of a video, the
    /// path of a local file.
    pub fn thumbnail_key(&self) -> (k: String)
        ensures
            k@ == match *self {
                JobSource::Youtube { video_id, .. } => video_id@,
                JobSource::LocalFile { path } => path@,
            },
    {
        match self {
            JobSource::Youtube { video_id, .. } => video_id.clone(),
            JobSource::LocalFile { path } => path.clone(),
        }
    }
}

/// Compute the output folder name for a job: YouTube sources get
/// `"{title} ({video_id})"`, local files their stem; the result is
/// lowercased, and characters unsafe in file names become `_`.
pub fn output_folder_name(title: &str, video_id: Option<&str>) -> (r: String)
    ensures
        r@ == folder_name(
            title@,
            match video_id {
                Some(id) => Some(id@),
                None => None,
            },
        ),
{
    let mut base = String::new();
    push_str(&mut base, title);
    proof {
        reveal_strlit(" (");
        reveal_strlit(")");
    }
    match video_id {
        Some(id) => {
            push_str(&mut base, " (");
            push_str(&mut base, id);
            push_str(&mut base, ")");
        },
        None => {},
    }
    let lower = to_lowercase(base.as_str());
    let v = chars_of(lower.as_str());
    let mut r = String::new();
    let mut i: usize = 0;
    while i < v.len()
        invariant
            i <= v.len(),
            r@ == sanitize_folder(v@.take(i as int)),
        decreases v.len() - i,
    {
        let c = v[i];
        let d = if c == '/' || c == '\\' || c == ':' || c == '*' || c == '?' || c == '"' || c
            == '<' || c == '>' || c == '|' {
            '_'
        } else {
            c
        };
        push_char(&mut r, d);
        i = i + 1;
        assert(sanitize_folder(v@.take(i as int)) =~= sanitize_folder(v@.take(i - 1)).push(d));
    }
    assert(v@.take(v.len() as int) =~= v@);
    r
}

/// A single processing job: its id, its source, and what the runner keeps
/// with it (progress and cancellation handles).
pub struct Job<H> {
    pub id: u64,
    pub source: JobSource,
    pub handles: H,
}


/// The video id of a source, as an optional text.
pub open spec fn video_id_of(s: JobSource) -> Option<Seq<char>> {
    match s {
        JobSource::Youtube { video_id, .. } => Some(video_id@),
        JobSource::LocalFile { .. } => None,
    }
}

/// The output folder of a job's source under `output_dir`.
pub open spec fn job_dir_of(output_dir: Seq<char>, s: JobSource, os: TargetOs) -> Seq<char> {
    path_join(output_dir, folder_name(display_name_of(s, os), video_id_of(s)), os)
}

/// The output folder of a job's source under `output_dir`: what a finished
/// job in the queue opens.
pub fn job_output_dir(output_dir: &str, source: &JobSource, os: TargetOs) -> (p: String)
    ensures
        p@ == job_dir_of(output_dir@, *source, os),
{
    let name = source.display_name(os);
    let folder = output_folder_name(name.as_str(), source.video_id());
    join_path(output_dir, folder.as_str(), os)
}


/// An output folder name never holds a character that is unsafe in file
/// names, and keeps every other character of the lowercased name in place.
pub proof fn folder_names_are_safe(title: Seq<char>, video_id: Option<Seq<char>>)
    ensures
        forall|i: int| 0 <= i < folder_name(title, video_id).len() ==> !is_unsafe_for_folder(
            #[trigger] folder_name(title, video_id)[i],
        ),
        ({
            let lower = lowercase_of(
                match video_id {
                    Some(id) => title + " ("@ + id + ")"@,
                    None => title,
                },
            );
            &&& folder_name(title, video_id).len() == lower.len()
            &&& forall|i: int|
                0 <= i < lower.len() && !is_unsafe_for_folder(lower[i]) ==> #[trigger] folder_name(
                    title,
                    video_id,
                )[i] == lower[i]
        }),
{
}


/// A folder name that lowercasing leaves unchanged is a fixed point of
/// naming: the folder name of such a name, with no video id, is the name
/// itself. (Whether lowercasing a lowercased text changes it is a matter
/// of Unicode's case table.)
pub proof fn folder_name_fixed_point(title: Seq<char>, video_id: Option<Seq<char>>)
    requires
        lowercase_of(folder_name(title, video_id)) == folder_name(title, video_id),
    ensures
        folder_name(folder_name(title, video_id), None) == folder_name(title, video_id),
{
    let r = folder_name(title, video_id);
    folder_names_are_safe(title, video_id);
    assert(sanitize_folder(r) =~= r);
}

} // verus!
