//! User settings: the output format, GPU backend and model variant, and the
//! way each maps to the settings panel's option index.
use vstd::prelude::*;

verus! {

/// Output audio format for separated stems.
#[derive(Clone, Copy, Debug, PartialEq, Eq, Structural)]
pub enum OutputFormat {
    Wav,
    Flac,
    Mp3,
    Aac,
}

/// GPU backend preference.
#[derive(Clone, Copy, Debug, PartialEq, Eq, Structural)]
pub enum GpuBackend {
    Auto,
    Mps,
    Cuda,
    Cpu,
}

/// Demucs model variant.
#[derive(Clone, Copy, Debug, PartialEq, Eq, Structural)]
pub enum ModelVariant {
    HtdemucsFineTuned,
    Htdemucs,
}

/// The file extension of each output format.
pub open spec fn extension_of(f: OutputFormat) -> Seq<char> {
    match f {
        OutputFormat::Wav => "wav"@,
        OutputFormat::Flac => "flac"@,
        OutputFormat::Mp3 => "mp3"@,
        OutputFormat::Aac => "m4a"@,
    }
}

/// The demucs model name of each variant.
pub open spec fn model_name_of(m: ModelVariant) -> Seq<char> {
    match m {
        ModelVariant::HtdemucsFineTuned => "htdemucs_ft"@,
        ModelVariant::Htdemucs => "htdemucs"@,
    }
}

/// The option index of each format in the format picker.
pub open spec fn format_index(f: OutputFormat) -> i32 {
    match f {
        OutputFormat::Wav => 0,
        OutputFormat::Flac => 1,
        OutputFormat::Mp3 => 2,
        OutputFormat::Aac => 3,
    }
}

/// The format that picker option `i` selects (FLAC for unknown options).
pub open spec fn format_for_index(i: i32) -> OutputFormat {
    if i == 0 {
        OutputFormat::Wav
    } else if i == 2 {
        OutputFormat::Mp3
    } else if i == 3 {
        OutputFormat::Aac
    } else {
        OutputFormat::Flac
    }
}

/// The option index shown for each backend (CPU 1, the others 0).
pub open spec fn backend_index(b: GpuBackend) -> i32 {
    if b == GpuBackend::Cpu {
        1
    } else {
        0
    }
}

/// The backend that picker option `i` selects (automatic unless 1).
pub open spec fn backend_for_index(i: i32) -> GpuBackend {
    if i == 1 {
        GpuBackend::Cpu
    } else {
        GpuBackend::Auto
    }
}

/// The option index of each model variant.
pub open spec fn model_index(m: ModelVariant) -> i32 {
    if m == ModelVariant::Htdemucs {
        0
    } else {
        1
    }
}

/// The model that picker option `i` selects (fine-tuned unless 0).
pub open spec fn model_for_index(i: i32) -> ModelVariant {
    if i == 0 {
        ModelVariant::Htdemucs
    } else {
        ModelVariant::HtdemucsFineTuned
    }
}

impl OutputFormat {
    /// File extension for this format.
    pub fn extension(&self) -> (ext: &'static str)
        ensures
            ext@ == extension_of(*self),
    {
        match self {
            OutputFormat::Wav => "wav",
            OutputFormat::Flac => "flac",
            OutputFormat::Mp3 => "mp3",
            OutputFormat::Aac => "m4a",
        }
    }

    /// The format chosen by option `index` of the format picker
    /// (0 WAV, 2 MP3, 3 AAC, anything else FLAC).
    pub fn from_settings_index(index: i32) -> (f: OutputFormat)
        ensures
            f == format_for_index(index),
    {
        match index {
            0 => OutputFormat::Wav,
            2 => OutputFormat::Mp3,
            3 => OutputFormat::Aac,
            _ => OutputFormat::Flac,
        }
    }

    /// The option index of this format in the format picker.
    pub fn settings_index(&self) -> (i: i32)
        ensures
            i == format_index(*self),
    {
        match self {
            OutputFormat::Wav => 0,
            OutputFormat::Flac => 1,
            OutputFormat::Mp3 => 2,
            OutputFormat::Aac => 3,
        }
    }
}

impl GpuBackend {
    /// The backend chosen by option `index` of the GPU picker
    /// (1 CPU, anything else automatic).
    pub fn from_settings_index(index: i32) -> (b: GpuBackend)
        ensures
            b == backend_for_index(index),
    {
        if index == 1 {
            GpuBackend::Cpu
        } else {
            GpuBackend::Auto
        }
    }

    /// The option index shown for this backend (CPU 1, all others 0).
    pub fn settings_index(&self) -> (i: i32)
        ensures
            i == backend_index(*self),
    {
        match self {
            GpuBackend::Cpu => 1,
            _ => 0,
        }
    }
}

impl ModelVariant {
    /// Map to demucs model name for the Python CLI.
    pub fn model_name(&self) -> (name: &'static str)
        ensures
            name@ == model_name_of(*self),
    {
        match self {
            ModelVariant::HtdemucsFineTuned => "htdemucs_ft",
            ModelVariant::Htdemucs => "htdemucs",
        }
    }

    /// The variant chosen by option `index` of the model picker
    /// (0 plain htdemucs, anything else the fine-tuned one).
    pub fn from_settings_index(index: i32) -> (m: ModelVariant)
        ensures
            m == model_for_index(index),
    {
        if index == 0 {
            ModelVariant::Htdemucs
        } else {
            ModelVariant::HtdemucsFineTuned
        }
    }

    /// The option index of this variant in the model picker.
    pub fn settings_index(&self) -> (i: i32)
        ensures
            i == model_index(*self),
    {
        match self {
            ModelVariant::Htdemucs => 0,
            ModelVariant::HtdemucsFineTuned => 1,
        }
    }
}

/// Choosing a format by the index the picker shows for it gives the same
/// format back.
pub proof fn output_format_index_round_trip(f: OutputFormat)
    ensures
        format_for_index(format_index(f)) == f,
{
}

/// Choosing a model by the index the picker shows for it gives the same
/// model back.
pub proof fn model_variant_index_round_trip(m: ModelVariant)
    ensures
        model_for_index(model_index(m)) == m,
{
}

/// The GPU picker offers automatic and CPU only: those two come back
/// unchanged from their index.
pub proof fn gpu_backend_index_round_trip(b: GpuBackend)
    requires
        b == GpuBackend::Auto || b == GpuBackend::Cpu,
    ensures
        backend_for_index(backend_index(b)) == b,
{
}


/// Each output format has its own, non-empty extension with no `.` or
/// separator in it, so the extension of a file tells its format.
pub proof fn extensions_tell_formats(f: OutputFormat, g: OutputFormat)
    ensures
        extension_of(f).len() > 0,
        forall|i: int|
            0 <= i < extension_of(f).len() ==> #[trigger] extension_of(f)[i] != '.'
                && extension_of(f)[i] != '/' && extension_of(f)[i] != '\\',
        extension_of(f) == extension_of(g) ==> f == g,
{
    reveal_strlit("wav");
    reveal_strlit("flac");
    reveal_strlit("mp3");
    reveal_strlit("m4a");
    if f != g {
        assert(extension_of(f).len() != extension_of(g).len() || extension_of(f)[1] != extension_of(
            g,
        )[1]);
    }
}

} // verus!
