# tendril_core

The core of Tendril, a desktop tool that splits songs into stems (vocals,
drums, bass, other) with Demucs, from a YouTube Music search or a local
file, and writes them loudness-normalised in the chosen format, optionally
with an instrumental mix and the full mix.

`src/` is the library, verified with Verus. It holds the decisions: the
job queue and the stage-by-stage pipeline of a job (as a state machine
that names the work to do next), the tqdm progress tracker, the yt-dlp,
demucs and ffmpeg arguments and the error texts built from their output,
version normalisation for update checks, dependency status and install
plans, search-result merging, the queue list diff, and the small text and
path functions they rest on. Each public function states its result
exactly; the laws that relate several functions are proof functions.

`app/` is ordinary Rust around it: settings files, platform directories,
HTTP downloads, archive extraction, the external processes, the YouTube
Music client and the loop that performs the pipeline's work.

`tests/` runs the library on concrete inputs.
