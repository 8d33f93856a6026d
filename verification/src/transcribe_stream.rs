//! Transcription of a recording that arrives in chunks.
//!
//! Each upload names a session and carries a chunk of audio. The chunk joins
//! the session's buffer, and the whole recording so far is persisted,
//! normalized and transcribed again: the response to an upload reflects
//! everything the session has received, not only the newest chunk.
//!
//! A session always persists to the same two files. Requests of different
//! sessions never share a file, but two requests of one session do: where
//! their processes overlap, one may be answered from the recording that the
//! other persisted.

use crate::pipeline::{
    begin, converted_path_of, first_step, no_session, verdict_after, Snapshot, SnapshotView,
    Status, Step, StepView, Verdict, VerdictView, CONVERTED_SUFFIX,
};
use crate::process::ProcessOutcome;
use crate::session::{append_chunk, buffer_of, SessionId, SessionStore};
use vstd::prelude::*;

verus! {

/// What a session's snapshot path begins with.
pub const SNAPSHOT_PREFIX: &'static str = "/tmp/stream_";

/// What a session's snapshot path ends with.
pub const SNAPSHOT_SUFFIX: &'static str = ".wav";

/// The response to an upload: the transcription of the session's recording
/// so far, or a message that explains why there is none.
#[derive(Debug, PartialEq, Eq)]
pub struct TranscribeStreamResponse {
    pub status: Status,
    pub text: String,
}

impl TranscribeStreamResponse {
    /// The response that reports `verdict`.
    pub fn from_verdict(verdict: Verdict) -> (response: TranscribeStreamResponse)
        ensures
            response.status == verdict.status,
            response.text@ == verdict.text@,
    {
        TranscribeStreamResponse { status: verdict.status, text: verdict.text }
    }
}

/// The file that holds the durable snapshot of `session`: the same file for
/// every upload of the session.
pub open spec fn snapshot_path_of(session: Seq<char>) -> Seq<char> {
    SNAPSHOT_PREFIX@ + session + SNAPSHOT_SUFFIX@
}

/// The file that holds the durable snapshot of `session`.
pub fn snapshot_path(session: &SessionId) -> (path: String)
    ensures
        path@ == snapshot_path_of(session@),
{
    let mut path = SNAPSHOT_PREFIX.to_owned();
    path.append(session.as_str());
    path.append(SNAPSHOT_SUFFIX);
    path
}

/// What an upload of `audio` for `session` does to `store`, and the step
/// that follows it.
///
/// An upload without a session changes nothing and is answered at once. Any
/// other upload appends its chunk, which may be empty, and then persists and
/// normalizes the session's whole buffer.
pub open spec fn accept_upload(
    store: Map<Seq<char>, Seq<u8>>,
    session: Seq<char>,
    audio: Seq<u8>,
) -> (Map<Seq<char>, Seq<u8>>, StepView) {
    if session.len() == 0 {
        (store, StepView::Done(no_session()))
    } else {
        let after = append_chunk(store, session, audio);
        (
            after,
            first_step(
                SnapshotView {
                    path: snapshot_path_of(session),
                    contents: buffer_of(after, session),
                },
            ),
        )
    }
}

/// Takes an upload of `audio` for the session called `session_id` and says
/// what to do next.
///
/// With exclusive access to the store for the length of this call, the
/// append and the snapshot of the buffer are one step: the snapshot in the
/// step that comes back holds exactly the buffer that this upload left.
pub fn transcribe_stream_handler(
    store: &mut SessionStore,
    session_id: &str,
    audio: &[u8],
) -> (step: Step)
    ensures
        final(store)@ == accept_upload(old(store)@, session_id@, audio@).0,
        step@ == accept_upload(old(store)@, session_id@, audio@).1,
        session_id@.len() == 0 ==> final(store)@ == old(store)@ && step@ == StepView::Done(
            no_session(),
        ),
        session_id@.len() > 0 ==> final(store)@ == append_chunk(
            old(store)@,
            session_id@,
            audio@,
        ) && step@ == first_step(
            SnapshotView {
                path: snapshot_path_of(session_id@),
                contents: buffer_of(old(store)@, session_id@) + audio@,
            },
        ),
{
    match SessionId::new(session_id) {
        None => Step::Done(Verdict::no_session()),
        Some(session) => {
            store.append(&session, audio);
            let contents = store.snapshot(&session);
            begin(Snapshot { path: snapshot_path(&session), contents })
        },
    }
}

/// A whole request: the store after it and the verdict that answers it,
/// when the normalizer ends with `normalizer` and the recognizer, where it is
/// run at all, with `recognizer`. Only the upload itself reaches the store:
/// the steps that follow it are taken without it.
pub open spec fn serve_upload(
    store: Map<Seq<char>, Seq<u8>>,
    session: Seq<char>,
    audio: Seq<u8>,
    normalizer: ProcessOutcome,
    recognizer: ProcessOutcome,
) -> (Map<Seq<char>, Seq<u8>>, VerdictView) {
    let (after, step) = accept_upload(store, session, audio);
    match step {
        StepView::Done(verdict) => (after, verdict),
        StepView::Run { .. } => (after, verdict_after(normalizer, recognizer)),
    }
}

/// An upload without a session is answered with the "no session" verdict
/// and leaves the store as it was: no buffer is created for it.
pub proof fn lemma_empty_session_guard(
    store: Map<Seq<char>, Seq<u8>>,
    audio: Seq<u8>,
    normalizer: ProcessOutcome,
    recognizer: ProcessOutcome,
)
    ensures
        accept_upload(store, Seq::empty(), audio) == (store, StepView::Done(no_session())),
        serve_upload(store, Seq::empty(), audio, normalizer, recognizer) == (store, no_session()),
{
}

/// Whatever becomes of the normalizer and the recognizer, a request leaves
/// its session's buffer as the append left it: what the buffer held before,
/// followed by the chunk, once. No failure rolls the append back, and no
/// other session's buffer is changed.
pub proof fn lemma_failure_keeps_buffer(
    store: Map<Seq<char>, Seq<u8>>,
    session: Seq<char>,
    audio: Seq<u8>,
    normalizer: ProcessOutcome,
    recognizer: ProcessOutcome,
)
    requires
        session.len() > 0,
    ensures
        serve_upload(store, session, audio, normalizer, recognizer).0 == append_chunk(
            store,
            session,
            audio,
        ),
        buffer_of(serve_upload(store, session, audio, normalizer, recognizer).0, session)
            == buffer_of(store, session) + audio,
        buffer_of(serve_upload(store, session, audio, normalizer, recognizer).0, session).len()
            == buffer_of(store, session).len() + audio.len(),
        serve_upload(store, session, audio, normalizer, recognizer).1 == verdict_after(
            normalizer,
            recognizer,
        ),
{
}

/// Different sessions persist to different files, and their canonical
/// copies are different files too.
pub proof fn lemma_session_files_distinct(first: Seq<char>, second: Seq<char>)
    requires
        first != second,
    ensures
        snapshot_path_of(first) != snapshot_path_of(second),
        converted_path_of(snapshot_path_of(first)) != converted_path_of(snapshot_path_of(second)),
{
    let prefix = SNAPSHOT_PREFIX@.len() as int;
    let a = snapshot_path_of(first);
    let b = snapshot_path_of(second);
    if a == b {
        assert forall|i: int| 0 <= i < first.len() implies first[i] == second[i] by {
            assert(a[prefix + i] == first[i]);
            assert(b[prefix + i] == second[i]);
        }
        assert(first =~= second);
    }
    if converted_path_of(a) == converted_path_of(b) {
        assert(converted_path_of(a).len() == a.len() + CONVERTED_SUFFIX@.len());
        assert(converted_path_of(b).len() == b.len() + CONVERTED_SUFFIX@.len());
        assert forall|i: int| 0 <= i < a.len() implies a[i] == b[i] by {
            assert(converted_path_of(a)[i] == a[i]);
            assert(converted_path_of(b)[i] == b[i]);
        }
        assert(a =~= b);
    }
}

} // verus!
