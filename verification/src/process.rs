//! Command lines for external processes, and what a run of one gave back.

use vstd::prelude::*;
use vstd::utf8::{decode_utf8, valid_utf8};

verus! {

/// How one run of an external process ended.
#[derive(Debug, PartialEq, Eq)]
pub enum ProcessOutcome {
    /// The process could not be started.
    SpawnFailed,
    /// The process was stopped because it ran over its time limit.
    TimedOut,
    /// The process ran to its end. `code` is its exit code, absent where a
    /// signal ended it; `stdout` is what it wrote to its standard output.
    Exited { code: Option<i32>, stdout: Vec<u8> },
}

impl ProcessOutcome {
    /// The process ran to its end and exited with code zero.
    pub open spec fn has_succeeded(&self) -> bool {
        *self matches ProcessOutcome::Exited { code: Some(c), .. } && c == 0
    }

    /// Whether the process ran to its end and exited with code zero.
    #[verifier::when_used_as_spec(has_succeeded)]
    pub fn succeeded(&self) -> (yes: bool)
        ensures
            yes == self.has_succeeded(),
    {
        match self {
            ProcessOutcome::Exited { code: Some(c), .. } => *c == 0,
            _ => false,
        }
    }

    /// What the process wrote to its standard output; nothing where it did
    /// not run to its end.
    pub open spec fn output(&self) -> Seq<u8> {
        match self {
            ProcessOutcome::Exited { stdout, .. } => stdout@,
            _ => Seq::empty(),
        }
    }
}

/// The texts of `items`, in order.
pub open spec fn texts(items: Seq<String>) -> Seq<Seq<char>> {
    items.map_values(|item: String| item@)
}

/// A program to run and the arguments to run it with.
#[derive(Debug, PartialEq, Eq)]
pub struct Invocation {
    pub program: String,
    pub args: Vec<String>,
}

/// An [`Invocation`] as plain text.
pub struct InvocationView {
    pub program: Seq<char>,
    pub args: Seq<Seq<char>>,
}

impl View for Invocation {
    type V = InvocationView;

    open spec fn view(&self) -> InvocationView {
        InvocationView { program: self.program@, args: texts(self.args@) }
    }
}

/// The text that lossy UTF-8 decoding makes of `bytes`: the text that they
/// encode, with U+FFFD in place of each part that is not valid UTF-8.
pub uninterp spec fn lossy_text(bytes: Seq<u8>) -> Seq<char>;

/// Decodes `bytes` with `String::from_utf8_lossy`.
///
/// Trusted: the result is the lossy decoding of `bytes`, which for valid
/// UTF-8 is exactly the text that the bytes encode.
#[verifier::external_body]
pub(crate) fn decode_lossy(bytes: &[u8]) -> (text: String)
    ensures
        text@ == lossy_text(bytes@),
        valid_utf8(bytes@) ==> text@ == decode_utf8(bytes@),
{
    String::from_utf8_lossy(bytes).into_owned()
}

} // verus!
