use companion_backend::pipeline::{normalizer_invocation, Snapshot, Stage, Step, Verdict};
use companion_backend::process::ProcessOutcome;
use companion_backend::transcribe::{transcribe_handler, TranscribeResponse};
use companion_backend::upload::{field_kind, same_text, FieldKind};

#[test]
fn field_kinds_go_by_name() {
    assert_eq!(field_kind(Some("session_id")), FieldKind::SessionId);
    assert_eq!(field_kind(Some("audio")), FieldKind::Audio);
    assert_eq!(field_kind(Some("file")), FieldKind::Other);
    assert_eq!(field_kind(Some("")), FieldKind::Other);
    assert_eq!(field_kind(None), FieldKind::Other);
}

#[test]
fn field_names_are_compared_exactly() {
    assert_eq!(field_kind(Some("Audio")), FieldKind::Other);
    assert_eq!(field_kind(Some("audio ")), FieldKind::Other);
    assert_eq!(field_kind(Some("session_i")), FieldKind::Other);
    assert_eq!(field_kind(Some("session_id2")), FieldKind::Other);
    assert_eq!(field_kind(Some("sessionid")), FieldKind::Other);
}

#[test]
fn same_text_is_equality() {
    assert!(same_text("", ""));
    assert!(same_text("abc", "abc"));
    assert!(same_text("gr\u{fc}\u{df}", "gr\u{fc}\u{df}"));
    assert!(!same_text("abc", "abd"));
    assert!(!same_text("abc", "ab"));
    assert!(!same_text("", "a"));
    assert!(!same_text("\u{e9}", "e\u{301}"));
}

#[test]
fn request_without_audio_is_answered_at_once() {
    assert_eq!(
        transcribe_handler(None),
        Err(TranscribeResponse { text: "No audio uploaded".to_string() })
    );
}

#[test]
fn uploaded_recording_is_persisted_and_normalized() {
    assert_eq!(
        transcribe_handler(Some(vec![1, 2, 3])),
        Ok(Step::Run {
            persist: Some(Snapshot {
                path: "uploaded_audio.wav".to_string(),
                contents: vec![1, 2, 3],
            }),
            command: normalizer_invocation(
                "uploaded_audio.wav",
                "uploaded_audio.wav_converted.wav"
            ),
            stage: Stage::Normalizing {
                converted_path: "uploaded_audio.wav_converted.wav".to_string(),
            },
        })
    );
}

#[test]
fn empty_recording_is_still_a_recording() {
    assert!(matches!(transcribe_handler(Some(Vec::new())), Ok(Step::Run { .. })));
}

#[test]
fn single_upload_runs_the_same_sequence() {
    let first = transcribe_handler(Some(vec![1, 2, 3])).expect("a recording was uploaded");
    let second = match first {
        Step::Run { stage, .. } => {
            stage.resume(ProcessOutcome::Exited { code: Some(0), stdout: Vec::new() })
        }
        Step::Done(_) => panic!("the first step runs the normalizer"),
    };
    let third = match second {
        Step::Run { stage, .. } => {
            stage.resume(ProcessOutcome::Exited { code: Some(0), stdout: b"text".to_vec() })
        }
        Step::Done(_) => panic!("the second step runs the recognizer"),
    };
    let verdict = match third {
        Step::Done(verdict) => verdict,
        Step::Run { .. } => panic!("the third step answers"),
    };
    assert_eq!(
        TranscribeResponse::from_verdict(verdict),
        TranscribeResponse { text: "text".to_string() }
    );
}

#[test]
fn single_upload_reports_failures_as_text() {
    assert_eq!(
        TranscribeResponse::from_verdict(Verdict::conversion_failed()).text,
        "Failed to convert audio"
    );
    assert_eq!(
        TranscribeResponse::from_verdict(Verdict::transcription_failed()).text,
        "Failed to run whisper-cli"
    );
}
