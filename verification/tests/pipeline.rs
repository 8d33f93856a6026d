use companion_backend::pipeline::{
    begin, converted_path, normalizer_invocation, recognizer_invocation, Snapshot, Stage, Status,
    Step, Verdict, CONVERSION_FAILED_TEXT, MODEL_PATH, NO_SESSION_TEXT, TRANSCRIPTION_FAILED_TEXT,
};
use companion_backend::process::{Invocation, ProcessOutcome};

fn strings(items: &[&str]) -> Vec<String> {
    items.iter().map(|item| item.to_string()).collect()
}

fn exited(code: i32, stdout: &[u8]) -> ProcessOutcome {
    ProcessOutcome::Exited { code: Some(code), stdout: stdout.to_vec() }
}

fn normalizing() -> Stage {
    Stage::Normalizing { converted_path: "/tmp/stream_s1.wav_converted.wav".to_string() }
}

#[test]
fn outcome_succeeds_only_on_exit_code_zero() {
    assert!(exited(0, b"").succeeded());
    assert!(exited(0, b"text").succeeded());
    assert!(!exited(1, b"").succeeded());
    assert!(!exited(-1, b"").succeeded());
    assert!(!exited(255, b"text").succeeded());
    assert!(!ProcessOutcome::Exited { code: None, stdout: Vec::new() }.succeeded());
    assert!(!ProcessOutcome::SpawnFailed.succeeded());
    assert!(!ProcessOutcome::TimedOut.succeeded());
}

#[test]
fn normalizer_command_line() {
    let command = normalizer_invocation("in.wav", "out.wav");
    assert_eq!(
        command,
        Invocation {
            program: "ffmpeg".to_string(),
            args: strings(&[
                "-i", "in.wav", "-acodec", "pcm_s16le", "-ar", "16000", "-ac", "1", "-y",
                "out.wav",
            ]),
        }
    );
}

#[test]
fn recognizer_command_line() {
    let command = recognizer_invocation("model.bin", "audio.wav");
    assert_eq!(
        command,
        Invocation {
            program: "whisper-cli".to_string(),
            args: strings(&["-m", "model.bin", "-f", "audio.wav"]),
        }
    );
}

#[test]
fn converted_path_appends_the_suffix() {
    assert_eq!(converted_path("/tmp/stream_s1.wav"), "/tmp/stream_s1.wav_converted.wav");
    assert_eq!(converted_path(""), "_converted.wav");
}

#[test]
fn begin_persists_then_normalizes() {
    let step = begin(Snapshot { path: "rec.wav".to_string(), contents: vec![1, 2, 3] });
    assert_eq!(
        step,
        Step::Run {
            persist: Some(Snapshot { path: "rec.wav".to_string(), contents: vec![1, 2, 3] }),
            command: normalizer_invocation("rec.wav", "rec.wav_converted.wav"),
            stage: Stage::Normalizing { converted_path: "rec.wav_converted.wav".to_string() },
        }
    );
}

#[test]
fn normalizer_success_runs_the_recognizer() {
    let step = normalizing().resume(exited(0, b"ignored"));
    assert_eq!(
        step,
        Step::Run {
            persist: None,
            command: recognizer_invocation(MODEL_PATH, "/tmp/stream_s1.wav_converted.wav"),
            stage: Stage::Recognizing,
        }
    );
}

#[test]
fn normalizer_nonzero_exit_is_conversion_failed() {
    let step = normalizing().resume(exited(1, b""));
    assert_eq!(
        step,
        Step::Done(Verdict {
            status: Status::ConversionFailed,
            text: "Failed to convert audio".to_string(),
        })
    );
}

#[test]
fn normalizer_killed_by_signal_is_conversion_failed() {
    let step = normalizing().resume(ProcessOutcome::Exited { code: None, stdout: Vec::new() });
    assert_eq!(step, Step::Done(Verdict::conversion_failed()));
}

#[test]
fn normalizer_spawn_failure_is_conversion_failed() {
    let step = normalizing().resume(ProcessOutcome::SpawnFailed);
    assert_eq!(step, Step::Done(Verdict::conversion_failed()));
}

#[test]
fn normalizer_timeout_is_transcription_failed() {
    let step = normalizing().resume(ProcessOutcome::TimedOut);
    assert_eq!(step, Step::Done(Verdict::transcription_failed()));
}

#[test]
fn recognizer_output_is_the_transcription() {
    let step = Stage::Recognizing.resume(exited(0, b" Hello, world.\n"));
    assert_eq!(
        step,
        Step::Done(Verdict { status: Status::Transcribed, text: " Hello, world.\n".to_string() })
    );
}

#[test]
fn recognizer_empty_output_is_an_empty_transcription() {
    let step = Stage::Recognizing.resume(exited(0, b""));
    assert_eq!(step, Step::Done(Verdict { status: Status::Transcribed, text: String::new() }));
}

#[test]
fn recognizer_output_is_decoded_as_utf8() {
    let printed = "gr\u{fc}\u{df} dich \u{2014} \u{1f600}";
    let step = Stage::Recognizing.resume(exited(0, printed.as_bytes()));
    assert_eq!(
        step,
        Step::Done(Verdict::transcribed("gr\u{fc}\u{df} dich \u{2014} \u{1f600}".to_string()))
    );
}

#[test]
fn recognizer_invalid_utf8_is_replaced() {
    let step = Stage::Recognizing.resume(exited(0, &[b'f', 0xff, b'o', 0xc3]));
    assert_eq!(step, Step::Done(Verdict::transcribed("f\u{fffd}o\u{fffd}".to_string())));
}

#[test]
fn recognizer_nonzero_exit_is_transcription_failed() {
    let step = Stage::Recognizing.resume(exited(2, b"partial text"));
    assert_eq!(
        step,
        Step::Done(Verdict {
            status: Status::TranscriptionFailed,
            text: "Failed to run whisper-cli".to_string(),
        })
    );
}

#[test]
fn recognizer_spawn_failure_is_transcription_failed() {
    let step = Stage::Recognizing.resume(ProcessOutcome::SpawnFailed);
    assert_eq!(step, Step::Done(Verdict::transcription_failed()));
}

#[test]
fn recognizer_timeout_is_transcription_failed() {
    let step = Stage::Recognizing.resume(ProcessOutcome::TimedOut);
    assert_eq!(step, Step::Done(Verdict::transcription_failed()));
}

#[test]
fn verdict_texts() {
    assert_eq!(Verdict::no_session().text, NO_SESSION_TEXT);
    assert_eq!(Verdict::no_session().status, Status::NoSession);
    assert_eq!(Verdict::conversion_failed().text, CONVERSION_FAILED_TEXT);
    assert_eq!(Verdict::transcription_failed().text, TRANSCRIPTION_FAILED_TEXT);
    assert_eq!(NO_SESSION_TEXT, "No session ID");
}

#[test]
fn a_request_needs_at_most_two_runs() {
    let first = begin(Snapshot { path: "rec.wav".to_string(), contents: vec![0; 4] });
    let second = match first {
        Step::Run { stage, .. } => stage.resume(exited(0, b"")),
        Step::Done(_) => panic!("the first step runs the normalizer"),
    };
    let third = match second {
        Step::Run { stage, .. } => stage.resume(exited(0, b"done")),
        Step::Done(_) => panic!("the second step runs the recognizer"),
    };
    assert_eq!(third, Step::Done(Verdict::transcribed("done".to_string())));
}
