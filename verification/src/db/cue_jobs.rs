//! CUE split jobs: what a queued job records about its input.

use vstd::prelude::*;

verus! {

/// The input of a CUE split job: the sheet, the audio it describes, and
/// what to do with the source file afterwards.
#[derive(Debug, Clone, Default)]
pub struct CueJobPayload {
    pub cue_path: String,
    pub audio_path: String,
    pub source_file_policy: String,
}

} // verus!
