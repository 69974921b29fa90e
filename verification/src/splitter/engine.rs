//! The decisions around a demucs run: device and job-count arguments, the
//! stem files it writes, its failure message, and the tqdm progress tracker
//! that turns its stderr into progress events.
use vstd::prelude::*;
use crate::config::{model_name_of, GpuBackend, ModelVariant};
use crate::paths::{file_stem, join_path, path_file_stem, path_join};
use crate::platform::{TargetArch, TargetOs};
use crate::progress::{PipelineStage, ProgressEvent};
use crate::text::{
    all_digits, chars_of, contains_chars, contains_seq, occurs_at, decimal, digits_value, is_digit,
    join_seqs, lines_of, push_decimal, push_joined, push_signed_decimal, push_str,
    signed_decimal, text_lines, views,
};

verus! {

/// Output stems from separation.
pub struct StemOutput {
    pub vocals: String,
    pub drums: String,
    pub bass: String,
    pub other: String,
}

/// The texts that capture group 1 of the tqdm pattern `(\d+)%\|` matches
/// in `chunk`, one per match, in order, as the `regex` crate finds them.
pub uninterp spec fn tqdm_percent_captures(chunk: Seq<char>) -> Seq<Seq<char>>;

/// Compiles `(\d+)%\|` with `regex::Regex::new` and collects capture group 1
/// of every match that `Regex::captures_iter` yields over `chunk`. The
/// contract names that list `tqdm_percent_captures(chunk)` and states
/// nothing more of it (which characters `\d` accepts is the crate's Unicode
/// table).
#[verifier::external_body]
fn percent_captures(chunk: &str) -> (r: Vec<String>)
    ensures
        r@.map_values(|s: String| s@) == tqdm_percent_captures(chunk@),
{
    let re = regex::Regex::new(r"(\d+)%\|").expect("the pattern is a valid regex");
    re.captures_iter(chunk).map(|c| c[1].to_string()).collect()
}

/// The last of a list of captures, if any.
pub open spec fn last_capture(caps: Seq<Seq<char>>) -> Option<Seq<char>> {
    if caps.len() == 0 {
        None
    } else {
        Some(caps.last())
    }
}

/// The percentage a captured digit run stands for: its decimal value
/// (saturated at `u64::MAX`) when it is made of ASCII digits only.
pub open spec fn percent_of(d: Seq<char>) -> Option<u64> {
    if all_digits(d) {
        Some(
            if digits_value(d) > u64::MAX {
                u64::MAX
            } else {
                digits_value(d) as u64
            },
        )
    } else {
        None
    }
}

fn parse_percent(d: &str) -> (r: Option<u64>)
    ensures
        r == percent_of(d@),
{
    let v = chars_of(d);
    if v.len() == 0 {
        return None;
    }
    let mut acc: u64 = 0;
    let mut saturated = false;
    let mut i: usize = 0;
    while i < v.len()
        invariant
            v@ == d@,
            i <= v.len(),
            forall|j: int| 0 <= j < i ==> is_digit(#[trigger] v@[j]),
            saturated ==> acc == u64::MAX && digits_value(v@.take(i as int)) > u64::MAX,
            !saturated ==> acc == digits_value(v@.take(i as int)),
        decreases v.len() - i,
    {
        let c = v[i];
        if !('0' <= c && c <= '9') {
            assert(!is_digit(v@[i as int]));
            return None;
        }
        let dv = (c as u32 - '0' as u32) as u64;
        assert(v@.take(i + 1).drop_last() =~= v@.take(i as int));
        assert(digits_value(v@.take(i + 1)) == digits_value(v@.take(i as int)) * 10 + dv);
        if !saturated {
            if acc > (u64::MAX - dv) / 10 {
                saturated = true;
                acc = u64::MAX;
            } else {
                acc = acc * 10 + dv;
            }
        }
        i = i + 1;
    }
    assert(v@.take(v.len() as int) =~= v@);
    Some(acc)
}

/// The pass that follows `pass` when a fine-tuned run reports `pct` after
/// `last`: a drop from above 50 starts the next pass (never past the last
/// one); anything else stays in the same pass.
pub open spec fn next_pass(is_ft: bool, passes: nat, pass: nat, last: nat, pct: nat) -> nat {
    if is_ft && pct < last && last > 50 {
        if pass + 1 < passes {
            pass + 1
        } else {
            (passes - 1) as nat
        }
    } else {
        pass
    }
}

/// Overall progress in basis points: `(pass + pct/100) / passes`, capped
/// at 9500 so that the save step after the last tick has headroom.
pub open spec fn overall_bp(pass: nat, passes: nat, pct: nat) -> nat {
    if pass * 100 + pct >= 95 * passes {
        9500
    } else {
        ((pass * 100 + pct) * 100 / passes) as nat
    }
}

/// Overall progress never passes the cap.
proof fn lemma_overall_bp_capped(pass: nat, passes: nat, pct: nat)
    requires
        passes > 0,
    ensures
        overall_bp(pass, passes, pct) <= 9500,
{
    if pass * 100 + pct < 95 * passes {
        let x = pass * 100 + pct;
        assert(x * 100 < 9500 * passes) by (nonlinear_arith)
            requires
                x < 95 * passes,
        ;
        assert((x * 100) / passes < 9500) by (nonlinear_arith)
            requires
                x * 100 < 9500 * passes,
                passes > 0,
        ;
    }
}

/// The status line for a progress tick.
pub open spec fn progress_message(is_ft: bool, pass: nat, passes: nat, pct: nat) -> Seq<char> {
    if is_ft {
        "Separating stems (pass "@ + decimal(pass + 1) + "/"@ + decimal(passes) + ")... "@
            + decimal(pct) + "%"@
    } else {
        "Separating stems... "@ + decimal(pct) + "%"@
    }
}

/// State machine translating tqdm progress text into progress events.
///
/// Demucs emits progress like `\r  45%|████░░░░|` on stderr. The
/// fine-tuned model runs four passes (one per stem), each restarting at 0%;
/// a drop from above 50% advances the pass counter.
pub struct TqdmTracker {
    is_ft: bool,
    ft_stems: u32,
    ft_stem_idx: u32,
    last_pct: u64,
}

/// Whether `new` and `r` are the tracker and report after `old` reads the
/// digits `capture` (`None` when the chunk held no progress marker): a
/// percentage advances the pass as `next_pass` says and is reported with
/// its overall progress and message; anything else changes nothing and
/// reports nothing.
pub open spec fn fed(old: TqdmTracker, capture: Option<Seq<char>>, new: TqdmTracker, r: Option<ProgressEvent>) -> bool {
    &&& new.fine_tuned() == old.fine_tuned()
    &&& new.passes() == old.passes()
    &&& match capture {
        Some(d) if percent_of(d) is Some => {
            let pct = percent_of(d)->0 as nat;
            let pass = next_pass(old.fine_tuned(), old.passes(), old.pass(), old.last_percent(), pct);
            &&& new.pass() == pass
            &&& new.last_percent() == pct
            &&& r matches Some(e) && e.stage == PipelineStage::Splitting && e.fraction_bp == overall_bp(
                pass,
                old.passes(),
                pct,
            ) && e.message@ == progress_message(old.fine_tuned(), pass, old.passes(), pct)
        },
        _ => {
            &&& r is None
            &&& new.pass() == old.pass()
            &&& new.last_percent() == old.last_percent()
        },
    }
}

impl TqdmTracker {
    /// Whether the tracker follows a four-pass fine-tuned run.
    pub closed spec fn fine_tuned(self) -> bool {
        self.is_ft
    }

    /// The number of passes of the run: 4 fine-tuned, else 1.
    pub closed spec fn passes(self) -> nat {
        self.ft_stems as nat
    }

    /// The index of the current pass.
    pub closed spec fn pass(self) -> nat {
        self.ft_stem_idx as nat
    }

    /// The last percentage seen.
    pub closed spec fn last_percent(self) -> nat {
        self.last_pct as nat
    }

    /// Well-formedness: the pass count matches the model and the current
    /// pass is one of them.
    #[verifier::type_invariant]
    closed spec fn wf(self) -> bool {
        &&& self.ft_stems == (if self.is_ft {
            4u32
        } else {
            1u32
        })
        &&& self.ft_stem_idx < self.ft_stems
    }

    /// A tracker for a run of the fine-tuned (four-pass) model or not.
    pub fn new(is_ft: bool) -> (t: TqdmTracker)
        ensures
            t.fine_tuned() == is_ft,
            t.passes() == (if is_ft {
                4nat
            } else {
                1nat
            }),
            t.pass() == 0,
            t.last_percent() == 0,
    {
        TqdmTracker {
            is_ft,
            ft_stems: if is_ft {
                4
            } else {
                1
            },
            ft_stem_idx: 0,
            last_pct: 0,
        }
    }

    /// Advance the tracker by the digits that tqdm printed last in a chunk
    /// (`None` when the chunk held no progress marker) and report the
    /// resulting progress. Digits that are not all ASCII leave the tracker
    /// unchanged and report nothing.
    pub fn feed_capture(&mut self, capture: Option<&str>) -> (r: Option<ProgressEvent>)
        ensures
            r matches Some(e) ==> e.fraction_bp <= 9500,
            final(self).pass() < final(self).passes(),
            final(self).passes() == (if final(self).fine_tuned() {
                4nat
            } else {
                1nat
            }),
            fed(
                *old(self),
                match capture {
                    Some(d) => Some(d@),
                    None => None,
                },
                *final(self),
                r,
            ),
    {
        proof {
            use_type_invariant(&*self);
        }
        let d = match capture {
            Some(d) => d,
            None => {
                return None;
            },
        };
        let pct = match parse_percent(d) {
            Some(p) => p,
            None => {
                return None;
            },
        };
        if self.is_ft && pct < self.last_pct && self.last_pct > 50 {
            if self.ft_stem_idx + 1 < self.ft_stems {
                self.ft_stem_idx = self.ft_stem_idx + 1;
            } else {
                self.ft_stem_idx = self.ft_stems - 1;
            }
        }
        self.last_pct = pct;
        proof {
            lemma_overall_bp_capped(self.ft_stem_idx as nat, self.ft_stems as nat, pct as nat);
        }
        let pass = self.ft_stem_idx as u64;
        let passes = self.ft_stems as u64;
        let bp: u32 = if pct >= 95 * passes || pass * 100 + pct >= 95 * passes {
            9500
        } else {
            (((pass * 100 + pct) * 100) / passes) as u32
        };
        let mut message = String::new();
        proof {
            reveal_strlit("Separating stems (pass ");
            reveal_strlit("/");
            reveal_strlit(")... ");
            reveal_strlit("%");
            reveal_strlit("Separating stems... ");
        }
        if self.is_ft {
            push_str(&mut message, "Separating stems (pass ");
            push_decimal(&mut message, pass + 1);
            push_str(&mut message, "/");
            push_decimal(&mut message, passes);
            push_str(&mut message, ")... ");
            push_decimal(&mut message, pct);
            push_str(&mut message, "%");
        } else {
            push_str(&mut message, "Separating stems... ");
            push_decimal(&mut message, pct);
            push_str(&mut message, "%");
        }
        Some(ProgressEvent { stage: PipelineStage::Splitting, fraction_bp: bp, message })
    }

    /// Feed a chunk of stderr text and return the latest progress event,
    /// if the chunk contained at least one tqdm progress marker: the chunk's
    /// last marker advances the tracker as `feed_capture` does.
    pub fn feed(&mut self, chunk: &str) -> (r: Option<ProgressEvent>)
        ensures
            fed(*old(self), last_capture(tqdm_percent_captures(chunk@)), *final(self), r),
            final(self).passes() == (if final(self).fine_tuned() {
                4nat
            } else {
                1nat
            }),
            old(self).pass() <= final(self).pass() < final(self).passes(),
            !old(self).fine_tuned() ==> final(self).pass() == 0,
            r matches Some(e) ==> e.stage == PipelineStage::Splitting && e.fraction_bp <= 9500,
    {
        proof {
            use_type_invariant(&*self);
        }
        let caps = percent_captures(chunk);
        proof {
            assert(caps@.map_values(|s: String| s@).len() == caps@.len());
        }
        if caps.len() == 0 {
            self.feed_capture(None)
        } else {
            let k = caps.len() - 1;
            proof {
                assert(caps@.map_values(|s: String| s@)[k as int] == caps@[k as int]@);
            }
            self.feed_capture(Some(caps[k].as_str()))
        }
    }
}

/// Whether the demucs model runs four passes (its name contains `_ft`).
pub fn is_fine_tuned(model_name: &str) -> (b: bool)
    ensures
        b == contains_seq(model_name@, "_ft"@),
{
    let v = chars_of(model_name);
    contains_chars(&v, "_ft")
}

/// Of the two models, only the fine-tuned one carries the `_ft` mark that
/// makes a run count four separation passes.
pub proof fn only_fine_tuned_model_runs_four_passes(m: ModelVariant)
    ensures
        contains_seq(model_name_of(m), "_ft"@) <==> m == ModelVariant::HtdemucsFineTuned,
{
    reveal_strlit("_ft");
    reveal_strlit("htdemucs");
    reveal_strlit("htdemucs_ft");
    let ft = "htdemucs_ft"@;
    assert(ft.subrange(8, 11) =~= "_ft"@);
    assert(occurs_at(ft, "_ft"@, 8));
    let plain = "htdemucs"@;
    assert forall|i: int| !occurs_at(plain, "_ft"@, i) by {
        if occurs_at(plain, "_ft"@, i) {
            assert(plain.subrange(i, i + 3)[0] == plain[i]);
            assert(0 <= i <= 5);
            assert(i == 0 || i == 1 || i == 2 || i == 3 || i == 4 || i == 5);
        }
    }
}

/// Number of parallel demucs jobs: the available parallelism (1 when
/// unknown) clamped to 1..=4.
pub fn num_jobs(available: Option<usize>) -> (n: usize)
    ensures
        n == (match available {
            Some(a) => if a < 1 {
                1
            } else if a > 4 {
                4
            } else {
                a
            },
            None => 1,
        }),
{
    let a = match available {
        Some(a) => a,
        None => 1,
    };
    if a < 1 {
        1
    } else if a > 4 {
        4
    } else {
        a
    }
}

/// The device name passed to demucs with `-d`, if any: automatic selection
/// asks for `mps` on Apple Silicon and leaves the choice to demucs
/// elsewhere.
pub open spec fn device_for(b: GpuBackend, os: TargetOs, arch: TargetArch) -> Option<Seq<char>> {
    match b {
        GpuBackend::Auto => if os == TargetOs::MacOs && arch == TargetArch::Aarch64 {
            Some("mps"@)
        } else {
            None
        },
        GpuBackend::Mps => Some("mps"@),
        GpuBackend::Cuda => Some("cuda"@),
        GpuBackend::Cpu => Some("cpu"@),
    }
}

/// The `-d` device argument for a backend on a platform.
pub fn device_arg(b: GpuBackend, os: TargetOs, arch: TargetArch) -> (r: Option<&'static str>)
    ensures
        match r {
            Some(s) => device_for(b, os, arch) == Some(s@),
            None => device_for(b, os, arch) is None,
        },
{
    match b {
        GpuBackend::Auto => {
            if os == TargetOs::MacOs && arch == TargetArch::Aarch64 {
                Some("mps")
            } else {
                None
            }
        },
        GpuBackend::Mps => Some("mps"),
        GpuBackend::Cuda => Some("cuda"),
        GpuBackend::Cpu => Some("cpu"),
    }
}

/// Automatic device selection forces a device only on Apple Silicon, where
/// it asks for what choosing MPS asks for; on every other platform it passes
/// no device and leaves the choice to demucs. An explicit backend asks for
/// its own device, the same on every platform, and no two explicit backends
/// ask for the same device.
pub proof fn auto_device_only_on_apple_silicon(
    os: TargetOs,
    arch: TargetArch,
    other_os: TargetOs,
    other_arch: TargetArch,
)
    ensures
        device_for(GpuBackend::Auto, os, arch) is Some <==> (os == TargetOs::MacOs && arch
            == TargetArch::Aarch64),
        device_for(GpuBackend::Auto, os, arch) is Some ==> device_for(GpuBackend::Auto, os, arch)
            == device_for(GpuBackend::Mps, os, arch),
        forall|b: GpuBackend|
            b != GpuBackend::Auto ==> (#[trigger] device_for(b, os, arch)) is Some && device_for(
                b,
                os,
                arch,
            ) == device_for(b, other_os, other_arch),
        device_for(GpuBackend::Mps, os, arch) != device_for(GpuBackend::Cuda, os, arch),
        device_for(GpuBackend::Mps, os, arch) != device_for(GpuBackend::Cpu, os, arch),
        device_for(GpuBackend::Cuda, os, arch) != device_for(GpuBackend::Cpu, os, arch),
{
    reveal_strlit("mps");
    reveal_strlit("cuda");
    reveal_strlit("cpu");
    assert("mps"@[0] != "cuda"@[0]);
    assert("mps"@[0] != "cpu"@[0]);
    assert("cuda"@[1] != "cpu"@[1]);
}

/// The stem name demucs writes outputs under: the input's file stem, or
/// `unknown`.
pub open spec fn input_stem_of(input: Seq<char>, os: TargetOs) -> Seq<char> {
    match path_file_stem(input, os) {
        Some(s) => s,
        None => "unknown"@,
    }
}

/// Where demucs writes the four stems: `<output_dir>/<model>/<stem>/<x>.wav`.
pub fn demucs_outputs(output_dir: &str, model_name: &str, input: &str, os: TargetOs) -> (s: StemOutput)
    ensures
        ({
            let base = path_join(path_join(output_dir@, model_name@, os), input_stem_of(input@, os), os);
            &&& s.vocals@ == path_join(base, "vocals.wav"@, os)
            &&& s.drums@ == path_join(base, "drums.wav"@, os)
            &&& s.bass@ == path_join(base, "bass.wav"@, os)
            &&& s.other@ == path_join(base, "other.wav"@, os)
        }),
{
    let stem = match file_stem(input, os) {
        Some(s) => s,
        None => String::from_str("unknown"),
    };
    let base = join_path(join_path(output_dir, model_name, os).as_str(), stem.as_str(), os);
    StemOutput {
        vocals: join_path(base.as_str(), "vocals.wav", os),
        drums: join_path(base.as_str(), "drums.wav", os),
        bass: join_path(base.as_str(), "bass.wav", os),
        other: join_path(base.as_str(), "other.wav", os),
    }
}

/// How many trailing stderr lines a demucs failure reports.
pub const FAILURE_TAIL_LINES: usize = 15;

/// The last `n` of `ls` (all of them when there are fewer).
pub open spec fn last_n<T>(ls: Seq<T>, n: nat) -> Seq<T> {
    if ls.len() <= n {
        ls
    } else {
        ls.skip(ls.len() - n)
    }
}

/// The error text for a demucs run that exited unsuccessfully: its exit
/// code (-1 when it has none) and the last 15 lines of its stderr.
pub open spec fn failure_text(code: Option<i32>, stderr: Seq<char>) -> Seq<char> {
    let c = match code {
        Some(c) => c as int,
        None => -1,
    };
    "demucs exited with code "@ + signed_decimal(c) + ": "@ + join_seqs(
        last_n(text_lines(stderr), FAILURE_TAIL_LINES as nat),
        "\n"@,
    )
}

/// The error message for a failed demucs run.
pub fn failure_message(code: Option<i32>, stderr: &str) -> (m: String)
    ensures
        m@ == failure_text(code, stderr@),
{
    let ls = lines_of(stderr);
    let from = if ls.len() > FAILURE_TAIL_LINES {
        ls.len() - FAILURE_TAIL_LINES
    } else {
        0
    };
    let mut m = String::new();
    proof {
        reveal_strlit("demucs exited with code ");
        reveal_strlit(": ");
        reveal_strlit("\n");
    }
    push_str(&mut m, "demucs exited with code ");
    let c = match code {
        Some(c) => c,
        None => -1,
    };
    push_signed_decimal(&mut m, c);
    push_str(&mut m, ": ");
    push_joined(&mut m, &ls, from, ls.len(), "\n");
    proof {
        let tl = text_lines(stderr@);
        assert(views(ls@).subrange(from as int, ls.len() as int) =~= last_n(
            tl,
            FAILURE_TAIL_LINES as nat,
        ));
    }
    m
}


/// The arguments of a demucs run: the module, the input, the model, the
/// output directory and the job count, then the device when one is chosen.
pub open spec fn demucs_args_of(
    input: Seq<char>,
    model_name: Seq<char>,
    output_dir: Seq<char>,
    jobs: nat,
    device: Option<Seq<char>>,
) -> Seq<Seq<char>> {
    let base = seq![
        "-m"@,
        "demucs.separate"@,
        input,
        "-n"@,
        model_name,
        "-o"@,
        output_dir,
        "-j"@,
        decimal(jobs),
    ];
    match device {
        Some(d) => base + seq!["-d"@, d],
        None => base,
    }
}

/// The arguments of a demucs run.
pub fn demucs_args(input: &str, model_name: &str, output_dir: &str, jobs: usize, device: Option<&str>) -> (a: Vec<String>)
    ensures
        a@.map_values(|s: String| s@) == demucs_args_of(
            input@,
            model_name@,
            output_dir@,
            jobs as nat,
            match device {
                Some(d) => Some(d@),
                None => None,
            },
        ),
{
    let mut a: Vec<String> = Vec::new();
    a.push(String::from_str("-m"));
    a.push(String::from_str("demucs.separate"));
    a.push(String::from_str(input));
    a.push(String::from_str("-n"));
    a.push(String::from_str(model_name));
    a.push(String::from_str("-o"));
    a.push(String::from_str(output_dir));
    a.push(String::from_str("-j"));
    let mut j = String::new();
    push_decimal(&mut j, jobs as u64);
    a.push(j);
    match device {
        Some(d) => {
            a.push(String::from_str("-d"));
            a.push(String::from_str(d));
        },
        None => {},
    }
    assert(a@.map_values(|s: String| s@) =~= demucs_args_of(
        input@,
        model_name@,
        output_dir@,
        jobs as nat,
        match device {
            Some(d) => Some(d@),
            None => None,
        },
    ));
    a
}

/// The error text when the bundled Python is missing.
pub fn python_missing_message(python_bin: &str) -> (m: String)
    ensures
        m@ == "Python not found at "@ + python_bin@ + " \u{2014} install dependencies first"@,
{
    let mut m = String::new();
    push_str(&mut m, "Python not found at ");
    push_str(&mut m, python_bin);
    push_str(&mut m, " \u{2014} install dependencies first");
    m
}

/// The error text when demucs finished without writing a stem.
pub fn missing_stem_message(name: &str, path: &str) -> (m: String)
    ensures
        m@ == "demucs output not found: "@ + name@ + " (expected at "@ + path@ + ")"@,
{
    let mut m = String::new();
    push_str(&mut m, "demucs output not found: ");
    push_str(&mut m, name);
    push_str(&mut m, " (expected at ");
    push_str(&mut m, path);
    push_str(&mut m, ")");
    m
}


/// One step of the tracker keeps its model and pass count, never lowers
/// the pass nor lets it reach the pass count, and reports a capped
/// splitting event naming the new pass.
proof fn lemma_tracker_step(old: TqdmTracker, cap: Option<Seq<char>>, new: TqdmTracker, r: Option<ProgressEvent>)
    requires
        fed(old, cap, new, r),
        old.pass() < old.passes(),
    ensures
        new.fine_tuned() == old.fine_tuned(),
        new.passes() == old.passes(),
        old.pass() <= new.pass() < new.passes(),
        r matches Some(e) ==> e.stage == PipelineStage::Splitting && e.fraction_bp <= 9500
            && e.message@ == progress_message(old.fine_tuned(), new.pass(), old.passes(), new.last_percent()),
{
    if let Some(d) = cap {
        if percent_of(d) is Some {
            lemma_overall_bp_capped(new.pass(), old.passes(), percent_of(d)->0 as nat);
        }
    }
}

/// The requirements of `tracker_reports_over_a_run`.
pub open spec fn tracker_run(
    ts: Seq<TqdmTracker>,
    chunks: Seq<Seq<char>>,
    reports: Seq<Option<ProgressEvent>>,
) -> bool {
    &&& ts.len() == chunks.len() + 1
    &&& reports.len() == chunks.len()
    &&& ts[0].pass() == 0
    &&& ts[0].passes() == (if ts[0].fine_tuned() {
        4nat
    } else {
        1nat
    })
    &&& forall|i: int|
        0 <= i < chunks.len() ==> fed(
            #[trigger] ts[i],
            last_capture(tqdm_percent_captures(chunks[i])),
            ts[i + 1],
            reports[i],
        )
}

proof fn lemma_tracker_upto(
    ts: Seq<TqdmTracker>,
    chunks: Seq<Seq<char>>,
    reports: Seq<Option<ProgressEvent>>,
    k: int,
)
    requires
        tracker_run(ts, chunks, reports),
        0 <= k < ts.len(),
    ensures
        forall|i: int|
            0 <= i <= k ==> #[trigger] ts[i].fine_tuned() == ts[0].fine_tuned() && ts[i].passes()
                == ts[0].passes() && ts[i].pass() < ts[i].passes(),
        forall|i: int, j: int| 0 <= i <= j <= k ==> #[trigger] ts[i].pass() <= #[trigger] ts[j].pass(),
    decreases k,
{
    if k > 0 {
        lemma_tracker_upto(ts, chunks, reports, k - 1);
        assert(fed(ts[k - 1], last_capture(tqdm_percent_captures(chunks[k - 1])), ts[k], reports[k - 1]));
        lemma_tracker_step(ts[k - 1], last_capture(tqdm_percent_captures(chunks[k - 1])), ts[k], reports[k - 1]);
        assert forall|i: int, j: int| 0 <= i <= j <= k implies #[trigger] ts[i].pass() <= #[trigger] ts[j].pass() by {
            if j == k && i < k {
                assert(ts[i].pass() <= ts[k - 1].pass());
            }
        }
    }
}

/// Over any sequence of chunks fed to a fresh tracker (states `ts`, one
/// per call and one before the first, and the reports of the calls): the
/// model and pass count never change, the pass never goes down and stays
/// below the pass count (4 for the fine-tuned model, 1 otherwise), and
/// every report is a splitting event of at most 9500 basis points whose
/// message names the pass the tracker is in.
pub proof fn tracker_reports_over_a_run(
    ts: Seq<TqdmTracker>,
    chunks: Seq<Seq<char>>,
    reports: Seq<Option<ProgressEvent>>,
)
    requires
        tracker_run(ts, chunks, reports),
    ensures
        forall|i: int|
            0 <= i < ts.len() ==> #[trigger] ts[i].fine_tuned() == ts[0].fine_tuned() && ts[i].passes()
                == ts[0].passes() && ts[i].pass() < ts[i].passes(),
        forall|i: int, j: int| 0 <= i <= j < ts.len() ==> #[trigger] ts[i].pass() <= #[trigger] ts[j].pass(),
        forall|i: int|
            0 <= i < reports.len() && (#[trigger] reports[i]) is Some ==> ({
                let e = reports[i]->0;
                &&& e.stage == PipelineStage::Splitting
                &&& e.fraction_bp <= 9500
                &&& e.message@ == progress_message(
                    ts[0].fine_tuned(),
                    ts[i + 1].pass(),
                    ts[0].passes(),
                    ts[i + 1].last_percent(),
                )
            }),
{
    lemma_tracker_upto(ts, chunks, reports, ts.len() - 1);
    assert forall|i: int| 0 <= i < reports.len() && (#[trigger] reports[i]) is Some implies ({
        let e = reports[i]->0;
        &&& e.stage == PipelineStage::Splitting
        &&& e.fraction_bp <= 9500
        &&& e.message@ == progress_message(
            ts[0].fine_tuned(),
            ts[i + 1].pass(),
            ts[0].passes(),
            ts[i + 1].last_percent(),
        )
    }) by {
        assert(ts[i].pass() < ts[i].passes());
        assert(fed(ts[i], last_capture(tqdm_percent_captures(chunks[i])), ts[i + 1], reports[i]));
        lemma_tracker_step(ts[i], last_capture(tqdm_percent_captures(chunks[i])), ts[i + 1], reports[i]);
    }
}

} // verus!
