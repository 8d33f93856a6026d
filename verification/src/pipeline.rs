//! The normalize-then-recognize sequence that every transcription runs.
//!
//! The sequence is a small state machine. The library decides; its caller
//! performs. A [`Step`] tells the caller what to do next: persist a
//! recording and run a process, or answer the request. After a process has
//! run, the caller hands its [`ProcessOutcome`] to [`Stage::resume`] and gets
//! the step after that.

use crate::process::{decode_lossy, lossy_text, Invocation, InvocationView, ProcessOutcome};
use vstd::prelude::*;
use vstd::utf8::{decode_utf8, valid_utf8};

verus! {

/// The program that converts an upload to the canonical encoding.
pub const NORMALIZER: &'static str = "ffmpeg";

/// The program that turns canonical audio into text.
pub const RECOGNIZER: &'static str = "whisper-cli";

/// The trained acoustic model that the recognizer is run with.
pub const MODEL_PATH: &'static str =
    "/home/cburns/ideas/ai-companion/backend/models/ggml-base.en.bin";

/// What is appended to a recording's path to name its canonical copy.
pub const CONVERTED_SUFFIX: &'static str = "_converted.wav";

/// The text of a response to a request that named no session.
pub const NO_SESSION_TEXT: &'static str = "No session ID";

/// The text of a response when the recording could not be normalized.
pub const CONVERSION_FAILED_TEXT: &'static str = "Failed to convert audio";

/// The text of a response when the recognizer gave no transcription.
pub const TRANSCRIPTION_FAILED_TEXT: &'static str = "Failed to run whisper-cli";

/// How a transcription request ended.
#[derive(Debug, Clone, Copy, PartialEq, Eq, Structural)]
pub enum Status {
    /// The recording was transcribed; the text may be empty.
    Transcribed,
    /// The request named no session.
    NoSession,
    /// The normalizer could not be started or reported failure.
    ConversionFailed,
    /// The recognizer could not be started or reported failure, or a process
    /// ran over its time limit.
    TranscriptionFailed,
}

/// The result of a transcription request: its status, and the transcription
/// or a message that explains the failure.
#[derive(Debug, PartialEq, Eq)]
pub struct Verdict {
    pub status: Status,
    pub text: String,
}

/// A [`Verdict`] as plain values.
pub struct VerdictView {
    pub status: Status,
    pub text: Seq<char>,
}

impl View for Verdict {
    type V = VerdictView;

    open spec fn view(&self) -> VerdictView {
        VerdictView { status: self.status, text: self.text@ }
    }
}

/// The verdict on a request that named no session.
pub open spec fn no_session() -> VerdictView {
    VerdictView { status: Status::NoSession, text: NO_SESSION_TEXT@ }
}

/// The verdict on a recording that could not be normalized.
pub open spec fn conversion_failed() -> VerdictView {
    VerdictView { status: Status::ConversionFailed, text: CONVERSION_FAILED_TEXT@ }
}

/// The verdict on a recording that could not be transcribed.
pub open spec fn transcription_failed() -> VerdictView {
    VerdictView { status: Status::TranscriptionFailed, text: TRANSCRIPTION_FAILED_TEXT@ }
}

/// The verdict on a recording whose transcription is `text`.
pub open spec fn transcribed(text: Seq<char>) -> VerdictView {
    VerdictView { status: Status::Transcribed, text }
}

impl Verdict {
    /// The verdict on a request that named no session.
    pub fn no_session() -> (verdict: Verdict)
        ensures
            verdict@ == no_session(),
    {
        Verdict { status: Status::NoSession, text: NO_SESSION_TEXT.to_owned() }
    }

    /// The verdict on a recording that could not be normalized.
    pub fn conversion_failed() -> (verdict: Verdict)
        ensures
            verdict@ == conversion_failed(),
    {
        Verdict { status: Status::ConversionFailed, text: CONVERSION_FAILED_TEXT.to_owned() }
    }

    /// The verdict on a recording that could not be transcribed.
    pub fn transcription_failed() -> (verdict: Verdict)
        ensures
            verdict@ == transcription_failed(),
    {
        Verdict { status: Status::TranscriptionFailed, text: TRANSCRIPTION_FAILED_TEXT.to_owned() }
    }

    /// The verdict on a recording whose transcription is `text`. An empty
    /// transcription is a success like any other.
    pub fn transcribed(text: String) -> (verdict: Verdict)
        ensures
            verdict@ == transcribed(text@),
    {
        Verdict { status: Status::Transcribed, text }
    }
}

/// A recording to persist: the file to write, replacing what it held, and
/// the bytes to write to it.
#[derive(Debug, PartialEq, Eq)]
pub struct Snapshot {
    pub path: String,
    pub contents: Vec<u8>,
}

/// A [`Snapshot`] as plain values.
pub struct SnapshotView {
    pub path: Seq<char>,
    pub contents: Seq<u8>,
}

impl View for Snapshot {
    type V = SnapshotView;

    open spec fn view(&self) -> SnapshotView {
        SnapshotView { path: self.path@, contents: self.contents@ }
    }
}

/// Where a request stands while a process runs for it.
#[derive(Debug, PartialEq, Eq)]
pub enum Stage {
    /// The normalizer is writing the canonical copy to `converted_path`.
    Normalizing { converted_path: String },
    /// The recognizer is reading the canonical copy.
    Recognizing,
}

/// A [`Stage`] as plain values.
pub enum StageView {
    Normalizing { converted_path: Seq<char> },
    Recognizing,
}

impl View for Stage {
    type V = StageView;

    open spec fn view(&self) -> StageView {
        match *self {
            Stage::Normalizing { converted_path } => StageView::Normalizing {
                converted_path: converted_path@,
            },
            Stage::Recognizing => StageView::Recognizing,
        }
    }
}

impl StageView {
    /// The number of process runs that a request at this stage may still
    /// need.
    pub open spec fn runs_left(self) -> nat {
        match self {
            StageView::Normalizing { .. } => 2,
            StageView::Recognizing => 1,
        }
    }
}

/// What the caller does next for a request.
#[derive(Debug, PartialEq, Eq)]
pub enum Step {
    /// Write `persist`, if there is one, then run `command` and hand its
    /// outcome to `stage`.
    Run { persist: Option<Snapshot>, command: Invocation, stage: Stage },
    /// Answer the request with this verdict.
    Done(Verdict),
}

/// A [`Step`] as plain values.
pub enum StepView {
    Run { persist: Option<SnapshotView>, command: InvocationView, stage: StageView },
    Done(VerdictView),
}

impl View for Step {
    type V = StepView;

    open spec fn view(&self) -> StepView {
        match *self {
            Step::Run { persist, command, stage } => StepView::Run {
                persist: match persist {
                    Some(snapshot) => Some(snapshot@),
                    None => None,
                },
                command: command@,
                stage: stage@,
            },
            Step::Done(verdict) => StepView::Done(verdict@),
        }
    }
}

/// The path of the canonical copy of the recording at `path`.
pub open spec fn converted_path_of(path: Seq<char>) -> Seq<char> {
    path + CONVERTED_SUFFIX@
}

/// The normalizer's command line: read `input`, write it to `output` as 16-bit
/// linear PCM, 16 kHz, one channel, replacing `output` if it exists.
pub open spec fn normalizer_command(input: Seq<char>, output: Seq<char>) -> InvocationView {
    InvocationView {
        program: NORMALIZER@,
        args: seq![
            "-i"@,
            input,
            "-acodec"@,
            "pcm_s16le"@,
            "-ar"@,
            "16000"@,
            "-ac"@,
            "1"@,
            "-y"@,
            output,
        ],
    }
}

/// The recognizer's command line: transcribe `audio` with the model at
/// `model`.
pub open spec fn recognizer_command(model: Seq<char>, audio: Seq<char>) -> InvocationView {
    InvocationView { program: RECOGNIZER@, args: seq!["-m"@, model, "-f"@, audio] }
}

/// The first step for a recording: persist it, then normalize the persisted
/// file into its canonical copy.
pub open spec fn first_step(recording: SnapshotView) -> StepView {
    StepView::Run {
        persist: Some(recording),
        command: normalizer_command(recording.path, converted_path_of(recording.path)),
        stage: StageView::Normalizing { converted_path: converted_path_of(recording.path) },
    }
}

/// The step that follows when the process awaited at `stage` ended with
/// `outcome`.
///
/// A normalizer that succeeded is followed by the recognizer on the canonical
/// copy; one that could not be started or exited with failure ends the
/// request as a failed conversion. A recognizer that succeeded ends the
/// request with what it printed, decoded leniently, as the transcription;
/// any other outcome of it, and a process of either kind that ran over its
/// time limit, ends the request as a failed transcription.
pub open spec fn next_step(stage: StageView, outcome: ProcessOutcome) -> StepView {
    match stage {
        StageView::Normalizing { converted_path } => {
            if outcome.succeeded() {
                StepView::Run {
                    persist: None,
                    command: recognizer_command(MODEL_PATH@, converted_path),
                    stage: StageView::Recognizing,
                }
            } else if outcome is TimedOut {
                StepView::Done(transcription_failed())
            } else {
                StepView::Done(conversion_failed())
            }
        },
        StageView::Recognizing => {
            if outcome.succeeded() {
                StepView::Done(transcribed(lossy_text(outcome.output())))
            } else {
                StepView::Done(transcription_failed())
            }
        },
    }
}

/// Builds the normalizer's command line.
pub fn normalizer_invocation(input: &str, output: &str) -> (command: Invocation)
    ensures
        command@ == normalizer_command(input@, output@),
{
    let mut args: Vec<String> = Vec::new();
    args.push("-i".to_owned());
    args.push(input.to_owned());
    args.push("-acodec".to_owned());
    args.push("pcm_s16le".to_owned());
    args.push("-ar".to_owned());
    args.push("16000".to_owned());
    args.push("-ac".to_owned());
    args.push("1".to_owned());
    args.push("-y".to_owned());
    args.push(output.to_owned());
    let command = Invocation { program: NORMALIZER.to_owned(), args };
    assert(command@.args =~= normalizer_command(input@, output@).args);
    command
}

/// Builds the recognizer's command line.
pub fn recognizer_invocation(model: &str, audio: &str) -> (command: Invocation)
    ensures
        command@ == recognizer_command(model@, audio@),
{
    let mut args: Vec<String> = Vec::new();
    args.push("-m".to_owned());
    args.push(model.to_owned());
    args.push("-f".to_owned());
    args.push(audio.to_owned());
    let command = Invocation { program: RECOGNIZER.to_owned(), args };
    assert(command@.args =~= recognizer_command(model@, audio@).args);
    command
}

/// The path of the canonical copy of the recording at `path`.
pub fn converted_path(path: &str) -> (converted: String)
    ensures
        converted@ == converted_path_of(path@),
{
    let mut converted = path.to_owned();
    converted.append(CONVERTED_SUFFIX);
    converted
}

/// Starts the sequence for `recording`.
pub fn begin(recording: Snapshot) -> (step: Step)
    ensures
        step@ == first_step(recording@),
{
    let converted = converted_path(recording.path.as_str());
    let command = normalizer_invocation(recording.path.as_str(), converted.as_str());
    Step::Run {
        persist: Some(recording),
        command,
        stage: Stage::Normalizing { converted_path: converted },
    }
}

impl Stage {
    /// Continues the request after the process awaited at this stage ended
    /// with `outcome`. Every `Run` step that comes back is nearer the end
    /// than this stage was, so a request needs at most two process runs.
    pub fn resume(self, outcome: ProcessOutcome) -> (step: Step)
        ensures
            step@ == next_step(self@, outcome),
            step@ matches StepView::Run { stage, .. } ==> stage.runs_left() < self@.runs_left(),
            self@ is Recognizing && outcome.has_succeeded() && valid_utf8(outcome.output())
                ==> step@ == StepView::Done(transcribed(decode_utf8(outcome.output()))),
            self@ is Recognizing && outcome.has_succeeded() && outcome.output().len() == 0
                ==> step@ == StepView::Done(transcribed(Seq::empty())),
    {
        let succeeded = outcome.succeeded();
        match self {
            Stage::Normalizing { converted_path } => {
                if succeeded {
                    Step::Run {
                        persist: None,
                        command: recognizer_invocation(MODEL_PATH, converted_path.as_str()),
                        stage: Stage::Recognizing,
                    }
                } else {
                    match outcome {
                        ProcessOutcome::TimedOut => Step::Done(Verdict::transcription_failed()),
                        _ => Step::Done(Verdict::conversion_failed()),
                    }
                }
            },
            Stage::Recognizing => {
                match outcome {
                    ProcessOutcome::Exited { code: _, stdout } => {
                        if succeeded {
                            Step::Done(Verdict::transcribed(decode_lossy(stdout.as_slice())))
                        } else {
                            Step::Done(Verdict::transcription_failed())
                        }
                    },
                    _ => Step::Done(Verdict::transcription_failed()),
                }
            },
        }
    }
}

/// The verdict of a request whose normalizer ended with `normalizer` and
/// whose recognizer, where it was run at all, ended with `recognizer`.
pub open spec fn verdict_after(
    normalizer: ProcessOutcome,
    recognizer: ProcessOutcome,
) -> VerdictView {
    if !normalizer.has_succeeded() {
        if normalizer is TimedOut {
            transcription_failed()
        } else {
            conversion_failed()
        }
    } else if !recognizer.has_succeeded() {
        transcription_failed()
    } else {
        transcribed(lossy_text(recognizer.output()))
    }
}

/// From its first step, a request runs the normalizer on the persisted
/// recording, runs the recognizer on the canonical copy only if the
/// normalizer succeeded, and ends with [`verdict_after`] of the two
/// outcomes. Nothing is persisted after the first step.
pub proof fn lemma_sequence_verdict(
    recording: SnapshotView,
    normalizer: ProcessOutcome,
    recognizer: ProcessOutcome,
)
    ensures
        first_step(recording) matches StepView::Run { persist, command, stage } && {
            &&& persist == Some(recording)
            &&& command == normalizer_command(recording.path, converted_path_of(recording.path))
            &&& match next_step(stage, normalizer) {
                StepView::Done(verdict) => {
                    &&& !normalizer.has_succeeded()
                    &&& verdict == verdict_after(normalizer, recognizer)
                },
                StepView::Run { persist, command, stage } => {
                    &&& normalizer.has_succeeded()
                    &&& persist is None
                    &&& command == recognizer_command(
                        MODEL_PATH@,
                        converted_path_of(recording.path),
                    )
                    &&& next_step(stage, recognizer) == StepView::Done(
                        verdict_after(normalizer, recognizer),
                    )
                },
            }
        },
{
}

/// Which outcomes lead to which status: a transcription needs both processes
/// to succeed; a conversion failure is a normalizer that could not be started
/// or exited with failure; everything else is a transcription failure. No
/// request that reached the normalizer ends as one without a session.
pub proof fn lemma_verdict_status(normalizer: ProcessOutcome, recognizer: ProcessOutcome)
    ensures
        verdict_after(normalizer, recognizer).status == Status::Transcribed <==> (
        normalizer.has_succeeded() && recognizer.has_succeeded()),
        verdict_after(normalizer, recognizer).status == Status::ConversionFailed <==> (
        !normalizer.has_succeeded() && !(normalizer is TimedOut)),
        verdict_after(normalizer, recognizer).status == Status::TranscriptionFailed <==> (
        normalizer is TimedOut || (normalizer.has_succeeded() && !recognizer.has_succeeded())),
        verdict_after(normalizer, recognizer).status != Status::NoSession,
{
}

} // verus!
