//! Session identifiers and the store of per-session audio buffers.

use vstd::hash_map::StringHashMap;
use vstd::prelude::*;

verus! {

/// A caller-chosen key that groups a sequence of audio chunks into one
/// recording. An identifier is never empty.
pub struct SessionId {
    name: String,
}

impl View for SessionId {
    type V = Seq<char>;

    closed spec fn view(&self) -> Seq<char> {
        self.name@
    }
}

impl SessionId {
    #[verifier::type_invariant]
    spec fn non_empty(self) -> bool {
        self.name@.len() > 0
    }

    /// Accepts `name` as an identifier unless it is empty.
    pub fn new(name: &str) -> (id: Option<SessionId>)
        ensures
            id is None <==> name@.len() == 0,
            id matches Some(i) ==> i@ == name@,
    {
        if name.is_empty() {
            None
        } else {
            Some(SessionId { name: name.to_owned() })
        }
    }

    /// The identifier as text.
    pub fn as_str(&self) -> (name: &str)
        ensures
            name@ == self@,
            name@.len() > 0,
    {
        proof {
            use_type_invariant(self);
        }
        self.name.as_str()
    }
}

/// The buffer that `store` holds for `session`: its bytes so far, or no
/// bytes at all where the session is unknown.
pub open spec fn buffer_of(store: Map<Seq<char>, Seq<u8>>, session: Seq<char>) -> Seq<u8> {
    if store.contains_key(session) {
        store[session]
    } else {
        Seq::empty()
    }
}

/// `store` after `chunk` was appended to the buffer of `session`. The buffer
/// exists afterwards, even where `chunk` is empty.
pub open spec fn append_chunk(
    store: Map<Seq<char>, Seq<u8>>,
    session: Seq<char>,
    chunk: Seq<u8>,
) -> Map<Seq<char>, Seq<u8>> {
    store.insert(session, buffer_of(store, session) + chunk)
}

/// The audio received so far, one growing buffer per session.
///
/// The store is an ordinary value: whoever shares it between requests hands
/// it out under exclusive access, so that each operation below is one step
/// that no other request can split.
pub struct SessionStore {
    buffers: StringHashMap<Vec<u8>>,
}

impl View for SessionStore {
    type V = Map<Seq<char>, Seq<u8>>;

    closed spec fn view(&self) -> Map<Seq<char>, Seq<u8>> {
        self.buffers@.map_values(|buffer: Vec<u8>| buffer@)
    }
}

impl SessionStore {
    #[verifier::type_invariant]
    spec fn keys_non_empty(self) -> bool {
        forall|name: Seq<char>| self.buffers@.contains_key(name) ==> name.len() > 0
    }

    /// A store without any session.
    pub fn new() -> (store: SessionStore)
        ensures
            store@ == Map::<Seq<char>, Seq<u8>>::empty(),
    {
        SessionStore { buffers: StringHashMap::new() }
    }

    /// Appends `chunk` to the buffer of `session`, creating the buffer if
    /// this is the session's first chunk, and returns the buffer's new length.
    /// No other session is touched.
    pub fn append(&mut self, session: &SessionId, chunk: &[u8]) -> (len: usize)
        ensures
            final(self)@ == append_chunk(old(self)@, session@, chunk@),
            buffer_of(final(self)@, session@) == buffer_of(old(self)@, session@) + chunk@,
            len == buffer_of(old(self)@, session@).len() + chunk@.len(),
            final(self)@.contains_key(session@),
            forall|other: Seq<char>|
                other != session@ ==> final(self)@.contains_key(other) == old(self)@.contains_key(
                    other,
                ) && buffer_of(final(self)@, other) == buffer_of(old(self)@, other),
    {
        proof {
            use_type_invariant(&*self);
        }
        let name = session.as_str();
        let mut buffer: Vec<u8> = match self.buffers.get(name) {
            Some(existing) => existing.clone(),
            None => Vec::new(),
        };
        let ghost before = buffer@;
        buffer.extend_from_slice(chunk);
        assert(buffer@ =~= before + chunk@);
        let len = buffer.len();
        // The map is taken out of the store while it changes and put back
        // whole, so that the store's invariant is only ever asked of a map
        // that the insertion has finished with.
        let mut buffers: StringHashMap<Vec<u8>> = StringHashMap::new();
        core::mem::swap(&mut self.buffers, &mut buffers);
        buffers.insert(name.to_owned(), buffer);
        core::mem::swap(&mut self.buffers, &mut buffers);
        len
    }

    /// A copy of the bytes that `session` has accumulated so far. The store
    /// is left as it was.
    pub fn snapshot(&self, session: &SessionId) -> (bytes: Vec<u8>)
        ensures
            bytes@ == buffer_of(self@, session@),
    {
        let bytes: Vec<u8> = match self.buffers.get(session.as_str()) {
            Some(buffer) => buffer.clone(),
            None => Vec::new(),
        };
        bytes
    }

    /// Whether a buffer exists for the session called `name`. There is never
    /// one for the empty name.
    pub fn contains(&self, name: &str) -> (found: bool)
        ensures
            found == self@.contains_key(name@),
            name@.len() == 0 ==> !found,
    {
        proof {
            use_type_invariant(self);
        }
        self.buffers.contains_key(name)
    }

    /// The number of sessions that have a buffer.
    pub fn session_count(&self) -> (count: usize)
        ensures
            count == self@.len(),
    {
        proof {
            assert(self@.dom() =~= self.buffers@.dom());
        }
        self.buffers.len()
    }
}

/// `store` after the uploads in `uploads`, each a session and a chunk, were
/// appended one after the other.
pub open spec fn append_all(
    store: Map<Seq<char>, Seq<u8>>,
    uploads: Seq<(Seq<char>, Seq<u8>)>,
) -> Map<Seq<char>, Seq<u8>>
    decreases uploads.len(),
{
    if uploads.len() == 0 {
        store
    } else {
        append_chunk(append_all(store, uploads.drop_last()), uploads.last().0, uploads.last().1)
    }
}

/// The chunks that `uploads` holds for `session`, joined in their order of
/// arrival.
pub open spec fn chunks_for(uploads: Seq<(Seq<char>, Seq<u8>)>, session: Seq<char>) -> Seq<u8>
    decreases uploads.len(),
{
    if uploads.len() == 0 {
        Seq::empty()
    } else if uploads.last().0 == session {
        chunks_for(uploads.drop_last(), session) + uploads.last().1
    } else {
        chunks_for(uploads.drop_last(), session)
    }
}

/// However the uploads of different sessions interleave, a session's buffer
/// ends up as what it held before, followed by that session's own chunks in
/// their order of arrival. Nothing is lost, repeated or taken from another
/// session, and a buffer never shrinks.
pub proof fn lemma_appends_concatenate(
    store: Map<Seq<char>, Seq<u8>>,
    uploads: Seq<(Seq<char>, Seq<u8>)>,
    session: Seq<char>,
)
    ensures
        buffer_of(append_all(store, uploads), session) == buffer_of(store, session) + chunks_for(
            uploads,
            session,
        ),
        buffer_of(store, session).is_prefix_of(buffer_of(append_all(store, uploads), session)),
    decreases uploads.len(),
{
    if uploads.len() > 0 {
        lemma_appends_concatenate(store, uploads.drop_last(), session);
    }
    assert(buffer_of(append_all(store, uploads), session) =~= buffer_of(store, session)
        + chunks_for(uploads, session));
}

/// Appending to one session neither creates, removes nor changes the buffer
/// of any other session.
pub proof fn lemma_sessions_isolated(
    store: Map<Seq<char>, Seq<u8>>,
    session: Seq<char>,
    chunk: Seq<u8>,
    other: Seq<char>,
)
    requires
        other != session,
    ensures
        append_chunk(store, session, chunk).contains_key(other) == store.contains_key(other),
        buffer_of(append_chunk(store, session, chunk), other) == buffer_of(store, other),
        append_chunk(store, session, chunk).remove(session) == store.remove(session),
{
}

/// What an append makes of a session's buffer depends on that buffer and on
/// the chunk alone: two stores that agree on the session agree on it
/// afterwards, whatever else they hold.
pub proof fn lemma_session_sees_only_itself(
    left: Map<Seq<char>, Seq<u8>>,
    right: Map<Seq<char>, Seq<u8>>,
    session: Seq<char>,
    chunk: Seq<u8>,
)
    requires
        buffer_of(left, session) == buffer_of(right, session),
    ensures
        buffer_of(append_chunk(left, session, chunk), session) == buffer_of(
            append_chunk(right, session, chunk),
            session,
        ),
{
}

/// A snapshot taken again holds the same bytes as long as no chunk arrived
/// for the session in between, whatever other sessions received meanwhile:
/// what a snapshot returns is fixed by the session's buffer, and only an
/// append to that session changes the buffer.
pub proof fn lemma_snapshot_repeatable(
    store: Map<Seq<char>, Seq<u8>>,
    between: Seq<(Seq<char>, Seq<u8>)>,
    session: Seq<char>,
)
    requires
        forall|i: int| 0 <= i < between.len() ==> between[i].0 != session,
    ensures
        buffer_of(append_all(store, between), session) == buffer_of(store, session),
        append_all(store, between).contains_key(session) == store.contains_key(session),
    decreases between.len(),
{
    if between.len() > 0 {
        lemma_snapshot_repeatable(store, between.drop_last(), session);
    }
}

} // verus!
