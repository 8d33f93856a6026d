//! The reply to a chat message, put together from what the model's server
//! sent back.
//!
//! The server streams its answer as lines of JSON, one object per line, each
//! with a piece of the reply under `message.content`. The reply is those
//! pieces in the order of their lines. Lines that are not JSON, or hold no
//! such text, add nothing.

use vstd::prelude::*;
use vstd::slice::{slice_subrange, slice_to_vec};
use vstd::utf8::encode_utf8;

verus! {

/// The address that chat messages are sent to where none is configured.
pub const DEFAULT_CHAT_URL: &'static str = "http://localhost:11434/api/chat";

/// The key of the object that holds a piece of the reply.
pub const MESSAGE_KEY: &'static str = "message";

/// The key, in that object, of the piece itself.
pub const CONTENT_KEY: &'static str = "content";

/// What a reply begins with when the server sent no piece of one; the
/// server's whole answer follows it.
pub const NO_REPLY_PREFIX: &'static str = "(no response from model)\nFull Ollama response: ";

/// What a reply begins with when the message could not be sent; the reason
/// follows it.
pub const SEND_FAILED_PREFIX: &'static str = "Error sending request to Ollama: ";

/// What a reply begins with when the server's answer could not be read; the
/// reason follows it.
pub const READ_FAILED_PREFIX: &'static str = "Error reading Ollama response: ";

/// The byte that ends a line.
pub const LINE_FEED: u8 = 10;

/// The byte that may stand before a line feed as part of the line ending.
pub const CARRIAGE_RETURN: u8 = 13;

/// The number of bytes of `text` before its first line feed; all of them
/// where it has none.
pub open spec fn first_line_len(text: Seq<u8>) -> nat
    decreases text.len(),
{
    if text.len() == 0 || text[0] == LINE_FEED {
        0
    } else {
        1 + first_line_len(text.drop_first())
    }
}

/// The first line of `text`, without its line ending. A line ends with a
/// line feed, or with a carriage return and a line feed; the last line of a
/// text need not end at all, and then keeps a carriage return at its end.
pub open spec fn first_line(text: Seq<u8>) -> Seq<u8> {
    let n = first_line_len(text) as int;
    if 0 < n < text.len() && text[n - 1] == CARRIAGE_RETURN {
        text.subrange(0, n - 1)
    } else {
        text.subrange(0, n)
    }
}

/// What follows the first line of `text` and its line ending.
pub open spec fn after_first_line(text: Seq<u8>) -> Seq<u8> {
    let n = first_line_len(text) as int;
    if n < text.len() {
        text.subrange(n + 1, text.len() as int)
    } else {
        Seq::empty()
    }
}

/// The lines of `text`, in order and without their line endings. An empty
/// text has no line, and a line ending at the very end of a text starts no
/// further line.
pub open spec fn lines_of(text: Seq<u8>) -> Seq<Seq<u8>>
    decreases text.len(),
{
    if text.len() == 0 {
        Seq::empty()
    } else {
        seq![first_line(text)] + lines_of(after_first_line(text))
    }
}

/// The byte sequences of `items`, in order.
pub open spec fn byte_seqs(items: Seq<Vec<u8>>) -> Seq<Seq<u8>> {
    items.map_values(|item: Vec<u8>| item@)
}

proof fn lemma_first_line_len(text: Seq<u8>, n: int)
    requires
        0 <= n <= text.len(),
        forall|j: int| 0 <= j < n ==> text[j] != LINE_FEED,
        n == text.len() || text[n] == LINE_FEED,
    ensures
        first_line_len(text) == n,
    decreases n,
{
    if n > 0 {
        lemma_first_line_len(text.drop_first(), n - 1);
    }
}

/// Splits `text` into its lines.
pub fn split_lines(text: &[u8]) -> (lines: Vec<Vec<u8>>)
    ensures
        byte_seqs(lines@) == lines_of(text@),
{
    let mut lines: Vec<Vec<u8>> = Vec::new();
    let mut start: usize = 0;
    assert(text@.subrange(0, text@.len() as int) =~= text@);
    while start < text.len()
        invariant
            start <= text.len(),
            byte_seqs(lines@) + lines_of(text@.subrange(start as int, text@.len() as int))
                == lines_of(text@),
        decreases text.len() - start,
    {
        let ghost rest = text@.subrange(start as int, text@.len() as int);
        let mut end: usize = start;
        while end < text.len() && text[end] != LINE_FEED
            invariant
                start <= end <= text.len(),
                forall|j: int| start <= j < end ==> text@[j] != LINE_FEED,
            decreases text.len() - end,
        {
            end += 1;
        }
        proof {
            assert forall|j: int| 0 <= j < end - start implies rest[j] != LINE_FEED by {
                assert(rest[j] == text@[start + j]);
            }
            lemma_first_line_len(rest, end - start);
        }
        let terminated = end < text.len();
        let stop: usize = if terminated && start < end && text[end - 1] == CARRIAGE_RETURN {
            end - 1
        } else {
            end
        };
        let line = slice_to_vec(slice_subrange(text, start, stop));
        let next: usize = if terminated {
            end + 1
        } else {
            end
        };
        proof {
            assert(line@ =~= first_line(rest));
            assert(text@.subrange(next as int, text@.len() as int) =~= after_first_line(rest));
            assert(byte_seqs(lines@.push(line)) + lines_of(after_first_line(rest)) =~= byte_seqs(
                lines@,
            ) + lines_of(rest));
        }
        lines.push(line);
        start = next;
    }
    lines
}

/// The text that the JSON document `document` holds under the key `inner`
/// of the object that it holds under the key `outer`. There is none where
/// `document` is not one JSON value, where either key is missing or leads
/// through something that is not an object, or where what is found there is
/// not a JSON string.
pub uninterp spec fn json_nested_text(
    document: Seq<u8>,
    outer: Seq<char>,
    inner: Seq<char>,
) -> Option<Seq<char>>;

/// The text of `piece`, if there is one.
pub open spec fn piece_text(piece: Option<String>) -> Option<Seq<char>> {
    match piece {
        Some(text) => Some(text@),
        None => None,
    }
}

/// The texts of `pieces`, in order.
pub open spec fn piece_texts(pieces: Seq<Option<String>>) -> Seq<Option<Seq<char>>> {
    pieces.map_values(|piece: Option<String>| piece_text(piece))
}

/// Reads `document` with `serde_json::from_slice` as a `serde_json::Value`,
/// indexes the value by `outer` and what that gives by `inner`, and takes
/// the result `as_str`.
///
/// Trusted: the result is a function of the three arguments alone, the one
/// that [`json_nested_text`] names. Nothing more is claimed of it.
#[verifier::external_body]
fn nested_text(document: &[u8], outer: &str, inner: &str) -> (text: Option<String>)
    ensures
        piece_text(text) == json_nested_text(document@, outer@, inner@),
{
    match serde_json::from_slice::<serde_json::Value>(document) {
        Ok(value) => value[outer][inner].as_str().map(|text| text.to_owned()),
        Err(_) => None,
    }
}

/// The piece of the reply that the line `line` carries.
pub open spec fn piece_of(line: Seq<u8>) -> Option<Seq<char>> {
    json_nested_text(line, MESSAGE_KEY@, CONTENT_KEY@)
}

/// The pieces that `lines` carry, line by line.
pub open spec fn pieces_of(lines: Seq<Seq<u8>>) -> Seq<Option<Seq<char>>> {
    lines.map_values(|line: Seq<u8>| piece_of(line))
}

/// The piece of the reply that the line `line` carries, if it carries one.
pub fn line_piece(line: &[u8]) -> (piece: Option<String>)
    ensures
        piece_text(piece) == piece_of(line@),
{
    nested_text(line, MESSAGE_KEY, CONTENT_KEY)
}

/// The texts among `pieces`, joined in order.
pub open spec fn join_pieces(pieces: Seq<Option<Seq<char>>>) -> Seq<char>
    decreases pieces.len(),
{
    if pieces.len() == 0 {
        Seq::empty()
    } else {
        join_pieces(pieces.drop_last()) + match pieces.last() {
            Some(text) => text,
            None => Seq::empty(),
        }
    }
}

/// The reply that `pieces` make: the pieces joined, or, where that is empty,
/// a note that no reply came, followed by the whole of `body`.
pub open spec fn reply_from(pieces: Seq<Option<Seq<char>>>, body: Seq<char>) -> Seq<char> {
    if join_pieces(pieces).len() == 0 {
        NO_REPLY_PREFIX@ + body
    } else {
        join_pieces(pieces)
    }
}

/// The reply to a message that the server answered with `body`.
pub open spec fn chat_reply_of(body: Seq<char>) -> Seq<char> {
    reply_from(pieces_of(lines_of(encode_utf8(body))), body)
}

/// Joins `pieces` into the reply; `body` is the server's whole answer, which
/// the reply quotes where the pieces come to nothing.
pub fn assemble_reply(pieces: &Vec<Option<String>>, body: &str) -> (reply: String)
    ensures
        reply@ == reply_from(piece_texts(pieces@), body@),
{
    let mut reply = String::new();
    let mut i: usize = 0;
    while i < pieces.len()
        invariant
            i <= pieces.len(),
            reply@ == join_pieces(piece_texts(pieces@).subrange(0, i as int)),
        decreases pieces.len() - i,
    {
        proof {
            let done = piece_texts(pieces@).subrange(0, i as int);
            let more = piece_texts(pieces@).subrange(0, i + 1);
            assert(more.drop_last() =~= done);
        }
        match &pieces[i] {
            Some(text) => {
                reply.append(text.as_str());
            },
            None => {},
        }
        i += 1;
    }
    assert(piece_texts(pieces@).subrange(0, i as int) =~= piece_texts(pieces@));
    if reply.as_str().is_empty() {
        let mut note = NO_REPLY_PREFIX.to_owned();
        note.append(body);
        note
    } else {
        reply
    }
}

/// The reply to a message that the server answered with `body`.
pub fn chat_reply(body: &str) -> (reply: String)
    ensures
        reply@ == chat_reply_of(body@),
{
    let lines = split_lines(body.as_bytes());
    let mut pieces: Vec<Option<String>> = Vec::new();
    let mut i: usize = 0;
    while i < lines.len()
        invariant
            i <= lines.len(),
            pieces.len() == i,
            forall|j: int| 0 <= j < i ==> piece_text(#[trigger] pieces@[j]) == piece_of(lines@[j]@),
        decreases lines.len() - i,
    {
        pieces.push(line_piece(lines[i].as_slice()));
        i += 1;
    }
    assert(piece_texts(pieces@) =~= pieces_of(byte_seqs(lines@)));
    assemble_reply(&pieces, body)
}

/// How the exchange with the model's server went.
#[derive(Debug, PartialEq, Eq)]
pub enum ChatExchange {
    /// The message could not be sent; the text says why.
    SendFailed(String),
    /// The server's answer could not be read; the text says why.
    ReadFailed(String),
    /// The server answered with this text.
    Answered(String),
}

/// The response to a chat message, given how the exchange went.
pub open spec fn chat_response_of(exchange: ChatExchange) -> Seq<char> {
    match exchange {
        ChatExchange::SendFailed(reason) => SEND_FAILED_PREFIX@ + reason@,
        ChatExchange::ReadFailed(reason) => READ_FAILED_PREFIX@ + reason@,
        ChatExchange::Answered(body) => chat_reply_of(body@),
    }
}

/// The response to a chat message: the model's reply where the server
/// answered, and else a message that says what went wrong.
pub fn chat_response(exchange: &ChatExchange) -> (response: String)
    ensures
        response@ == chat_response_of(*exchange),
{
    match exchange {
        ChatExchange::SendFailed(reason) => {
            let mut response = SEND_FAILED_PREFIX.to_owned();
            response.append(reason.as_str());
            response
        },
        ChatExchange::ReadFailed(reason) => {
            let mut response = READ_FAILED_PREFIX.to_owned();
            response.append(reason.as_str());
            response
        },
        ChatExchange::Answered(body) => chat_reply(body.as_str()),
    }
}

/// The address to send chat messages to: the configured one, or the default
/// where none is configured.
pub fn chat_url(configured: Option<String>) -> (url: String)
    ensures
        url@ == match configured {
            Some(address) => address@,
            None => DEFAULT_CHAT_URL@,
        },
{
    match configured {
        Some(address) => address,
        None => DEFAULT_CHAT_URL.to_owned(),
    }
}

} // verus!
