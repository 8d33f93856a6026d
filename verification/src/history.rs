//! The log of a chat: every message in order, oldest first.

use vstd::prelude::*;

verus! {

/// The file that holds the stored log.
pub const HISTORY_PATH: &'static str = "chat_history.json";

/// One message of a chat: who said it, and what was said.
#[derive(Debug, PartialEq, Eq)]
pub struct ChatEntry {
    pub role: String,
    pub content: String,
}

impl Clone for ChatEntry {
    fn clone(&self) -> (copy: ChatEntry)
        ensures
            copy == *self,
    {
        ChatEntry { role: self.role.clone(), content: self.content.clone() }
    }
}

/// The log to go on from, given what the stored log held: the stored
/// entries, or an empty log where there is no stored log or it could not be
/// read.
pub fn load_history(stored: Option<Vec<ChatEntry>>) -> (history: Vec<ChatEntry>)
    ensures
        history@ == match stored {
            Some(entries) => entries@,
            None => Seq::empty(),
        },
{
    match stored {
        Some(entries) => entries,
        None => Vec::new(),
    }
}

/// Adds a copy of `entry` at the end of `history`. The entries already there
/// stay as they are, in their order.
pub fn append_to_history(history: &mut Vec<ChatEntry>, entry: &ChatEntry)
    ensures
        final(history)@ == old(history)@.push(*entry),
{
    history.push(entry.clone());
}

} // verus!
