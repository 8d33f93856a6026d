//! Transcription of a recording that arrives whole, in one upload.

use crate::pipeline::{begin, first_step, Snapshot, SnapshotView, Step, Verdict};
use vstd::prelude::*;

verus! {

/// The file that an uploaded recording is persisted to.
pub const UPLOAD_PATH: &'static str = "uploaded_audio.wav";

/// The text of a response to a request that carried no recording.
pub const NO_AUDIO_TEXT: &'static str = "No audio uploaded";

/// The response to an upload: the transcription, or a message that explains
/// why there is none.
#[derive(Debug, PartialEq, Eq)]
pub struct TranscribeResponse {
    pub text: String,
}

impl TranscribeResponse {
    /// The response that reports `verdict`.
    pub fn from_verdict(verdict: Verdict) -> (response: TranscribeResponse)
        ensures
            response.text@ == verdict.text@,
    {
        TranscribeResponse { text: verdict.text }
    }
}

/// Takes the recording that a request carried, if it carried one, and says
/// what to do next: persist and normalize the recording, or answer at once
/// that there is none.
pub fn transcribe_handler(audio: Option<Vec<u8>>) -> (start: Result<Step, TranscribeResponse>)
    ensures
        match audio {
            Some(recording) => start matches Ok(step) && step@ == first_step(
                SnapshotView { path: UPLOAD_PATH@, contents: recording@ },
            ),
            None => start matches Err(response) && response.text@ == NO_AUDIO_TEXT@,
        },
{
    match audio {
        Some(recording) => {
            Ok(begin(Snapshot { path: UPLOAD_PATH.to_owned(), contents: recording }))
        },
        None => Err(TranscribeResponse { text: NO_AUDIO_TEXT.to_owned() }),
    }
}

} // verus!
