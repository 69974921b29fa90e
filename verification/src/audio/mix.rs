//! The ffmpeg filter that sums drums, bass and other into an instrumental.
use vstd::prelude::*;

verus! {

/// The ffmpeg `-filter_complex` value that builds the instrumental.
///
/// `normalize=0` disables `amix`'s default 1/N divisor and produces a true
/// sample-accurate sum of the three stems (without it the instrumental
/// would be about 9.54 dB quieter than the source); `duration=longest`
/// avoids truncating when one stem is a frame longer than the others.
pub fn instrumental_filter() -> (f: &'static str)
    ensures
        f@ == "amix=inputs=3:duration=longest:normalize=0"@,
{
    "amix=inputs=3:duration=longest:normalize=0"
}

} // verus!
