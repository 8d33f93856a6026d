//! The named parts of an upload request.

use vstd::prelude::*;
use vstd::utf8::{encode_utf8, encode_utf8_decode_utf8};

verus! {

/// The name of the part that carries the session identifier.
pub const SESSION_FIELD: &'static str = "session_id";

/// The name of the part that carries the audio.
pub const AUDIO_FIELD: &'static str = "audio";

/// What a part of an upload request holds, going by its name.
#[derive(Debug, Clone, Copy, PartialEq, Eq, Structural)]
pub enum FieldKind {
    /// The session identifier, as text.
    SessionId,
    /// The audio, as bytes.
    Audio,
    /// Nothing that a transcription reads.
    Other,
}

/// The kind of the part called `name`; a part without a name holds nothing
/// that a transcription reads.
pub open spec fn kind_of(name: Option<Seq<char>>) -> FieldKind {
    match name {
        Some(text) => if text == SESSION_FIELD@ {
            FieldKind::SessionId
        } else if text == AUDIO_FIELD@ {
            FieldKind::Audio
        } else {
            FieldKind::Other
        },
        None => FieldKind::Other,
    }
}

/// Whether `left` and `right` are the same text.
pub fn same_text(left: &str, right: &str) -> (same: bool)
    ensures
        same == (left@ == right@),
{
    let a = left.as_bytes();
    let b = right.as_bytes();
    proof {
        encode_utf8_decode_utf8(left@);
        encode_utf8_decode_utf8(right@);
    }
    if a.len() != b.len() {
        return false;
    }
    let mut i: usize = 0;
    while i < a.len()
        invariant
            i <= a.len(),
            a.len() == b.len(),
            a@ == encode_utf8(left@),
            b@ == encode_utf8(right@),
            forall|j: int| 0 <= j < i ==> a@[j] == b@[j],
        decreases a.len() - i,
    {
        if a[i] != b[i] {
            return false;
        }
        i += 1;
    }
    assert(a@ =~= b@);
    true
}

/// The kind of the part called `name`.
pub fn field_kind(name: Option<&str>) -> (kind: FieldKind)
    ensures
        kind == kind_of(
            match name {
                Some(text) => Some(text@),
                None => None,
            },
        ),
{
    match name {
        Some(text) => {
            if same_text(text, SESSION_FIELD) {
                FieldKind::SessionId
            } else if same_text(text, AUDIO_FIELD) {
                FieldKind::Audio
            } else {
                FieldKind::Other
            }
        },
        None => FieldKind::Other,
    }
}

} // verus!
