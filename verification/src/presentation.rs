//! What the UI shows: stage labels and track durations.
use vstd::prelude::*;
use crate::progress::PipelineStage;
use crate::text::{decimal, push_char, push_decimal, push_str, trim, trim_str};

verus! {

/// The label shown for a stage.
pub open spec fn stage_label_of(stage: PipelineStage) -> Seq<char> {
    match stage {
        PipelineStage::Queued => "Queued"@,
        PipelineStage::Downloading => "Downloading"@,
        PipelineStage::Splitting => "Splitting"@,
        PipelineStage::Converting => "Converting"@,
        PipelineStage::Mixing => "Mixing"@,
        PipelineStage::Complete => "Done"@,
        PipelineStage::Failed => "Failed"@,
    }
}

/// The label shown for a stage.
pub fn stage_label(stage: PipelineStage) -> (l: &'static str)
    ensures
        l@ == stage_label_of(stage),
{
    match stage {
        PipelineStage::Queued => "Queued",
        PipelineStage::Downloading => "Downloading",
        PipelineStage::Splitting => "Splitting",
        PipelineStage::Converting => "Converting",
        PipelineStage::Mixing => "Mixing",
        PipelineStage::Complete => "Done",
        PipelineStage::Failed => "Failed",
    }
}

/// The colour (red, green, blue) of a stage's badge.
pub open spec fn stage_rgb_of(stage: PipelineStage) -> (u8, u8, u8) {
    match stage {
        PipelineStage::Queued => (0x9c, 0x98, 0x90),
        PipelineStage::Downloading => (0x5b, 0x94, 0xd4),
        PipelineStage::Splitting => (0x91, 0x79, 0xd4),
        PipelineStage::Converting => (0xd4, 0xa0, 0x56),
        PipelineStage::Mixing => (0x5c, 0xb8, 0x96),
        PipelineStage::Complete => (0x6b, 0xba, 0x7e),
        PipelineStage::Failed => (0xd4, 0x6b, 0x6b),
    }
}

/// The colour of a stage's badge, fully opaque.
pub fn stage_rgb(stage: PipelineStage) -> (c: (u8, u8, u8))
    ensures
        c == stage_rgb_of(stage),
{
    match stage {
        PipelineStage::Queued => (0x9c, 0x98, 0x90),
        PipelineStage::Downloading => (0x5b, 0x94, 0xd4),
        PipelineStage::Splitting => (0x91, 0x79, 0xd4),
        PipelineStage::Converting => (0xd4, 0xa0, 0x56),
        PipelineStage::Mixing => (0x5c, 0xb8, 0x96),
        PipelineStage::Complete => (0x6b, 0xba, 0x7e),
        PipelineStage::Failed => (0xd4, 0x6b, 0x6b),
    }
}

/// A number below 100 written with two digits.
pub open spec fn two_digits(n: nat) -> Seq<char> {
    if n < 10 {
        seq!['0'] + decimal(n)
    } else {
        decimal(n)
    }
}

/// A duration as `minutes:seconds` (seconds with two digits), or nothing
/// for an unknown (zero) duration.
pub open spec fn duration_text(secs: nat) -> Seq<char> {
    if secs == 0 {
        Seq::<char>::empty()
    } else {
        decimal(secs / 60) + ":"@ + two_digits(secs % 60)
    }
}

/// A track duration as shown in the result list.
pub fn format_duration(secs: u32) -> (s: String)
    ensures
        s@ == duration_text(secs as nat),
{
    let mut s = String::new();
    if secs == 0 {
        return s;
    }
    let minutes = secs / 60;
    let seconds = secs % 60;
    push_decimal(&mut s, minutes as u64);
    push_str(&mut s, ":");
    if seconds < 10 {
        push_char(&mut s, '0');
    }
    push_decimal(&mut s, seconds as u64);
    proof {
        reveal_strlit(":");
    }
    s
}

/// Whether the UTF-8 encoding of `t` is at least two bytes long: two or
/// more characters, or a single character outside ASCII.
pub open spec fn at_least_two_bytes(t: Seq<char>) -> bool {
    t.len() >= 2 || (t.len() == 1 && t[0] as u32 >= 0x80)
}

/// A live search starts once the trimmed query is at least two bytes long.
pub fn should_search_live(query: &str) -> (b: bool)
    ensures
        b == at_least_two_bytes(trim(query@)),
{
    let t = crate::text::chars_of(trim_str(query));
    if t.len() >= 2 {
        true
    } else if t.len() == 1 {
        (t[0] as u32) >= 0x80
    } else {
        false
    }
}

/// An explicit search runs unless the query is blank.
pub fn should_search_now(query: &str) -> (b: bool)
    ensures
        b == (trim(query@).len() > 0),
{
    !trim_str(query).is_empty()
}

/// Whether a command-line word asks for debug logging.
pub open spec fn is_debug_word(a: Seq<char>) -> bool {
    a == "debug"@ || a == "-d"@ || a == "--debug"@ || a == "-v"@ || a == "--verbose"@
}

fn eq_literal(a: &String, lit: &str) -> (b: bool)
    ensures
        b == (a@ == lit@),
{
    crate::text::chars_equal(&crate::text::chars_of(a.as_str()), &crate::text::chars_of(lit))
}

/// Whether the arguments after the program name ask for debug logging.
pub fn wants_debug_logging(args: &Vec<String>) -> (b: bool)
    ensures
        b == exists|i: int| 1 <= i < args@.len() && is_debug_word(#[trigger] args@[i]@),
{
    let mut i: usize = 1;
    while i < args.len()
        invariant
            1 <= i,
            forall|j: int| 1 <= j < i && j < args@.len() ==> !is_debug_word(#[trigger] args@[j]@),
        decreases args.len() - i,
    {
        let a = &args[i];
        if eq_literal(a, "debug") || eq_literal(a, "-d") || eq_literal(a, "--debug") || eq_literal(
            a,
            "-v",
        ) || eq_literal(a, "--verbose") {
            return true;
        }
        i = i + 1;
    }
    false
}

} // verus!
