//! The session manager: the table from session identifier to session context, and the
//! downstream sender that every session's output pump shares.
use vstd::prelude::*;
use crate::frame::id_fits;
use crate::message::{PtyError, PtyResponse};

verus! {

/// Whether `c` is a lowercase hexadecimal digit.
pub open spec fn is_lower_hex(c: char) -> bool {
    ('0' <= c && c <= '9') || ('a' <= c && c <= 'f')
}

/// Whether `s` is the hyphenated lowercase text of a UUID v4: 36 characters in groups of
/// 8-4-4-4-12 hexadecimal digits joined by hyphens, the version digit `4` at position 14 and
/// the variant digit, one of `8`, `9`, `a`, `b`, at position 19.
pub open spec fn is_uuid_v4_text(s: Seq<char>) -> bool {
    &&& s.len() == 36
    &&& forall|i: int| 0 <= i < 36 ==> if i == 8 || i == 13 || i == 18 || i == 23 {
        #[trigger] s[i] == '-'
    } else {
        is_lower_hex(s[i])
    }
    &&& s[14] == '4'
    &&& (s[19] == '8' || s[19] == '9' || s[19] == 'a' || s[19] == 'b')
}

/// Relies on uuid::Uuid::new_v4, which fixes the version and variant bits of a random
/// value, and on its `Display`, which writes the hyphenated lowercase form.
#[verifier::external_body]
fn fresh_uuid() -> (r: String)
    ensures
        is_uuid_v4_text(r@),
{
    uuid::Uuid::new_v4().to_string()
}

proof fn lemma_uuid_text_fits(s: Seq<char>)
    requires
        is_uuid_v4_text(s),
    ensures
        id_fits(s),
        vstd::utf8::encode_utf8(s).len() == 36,
{
    assert forall|i: int| 0 <= i < s.len() implies '\0' <= #[trigger] s[i] <= '\u{7f}' by {
        if i == 8 || i == 13 || i == 18 || i == 23 {
        } else {
        }
    }
    assert(vstd::utf8::is_ascii_chars(s));
    vstd::utf8::is_ascii_chars_encode_utf8(s);
}

/// The session manager. `C` is what the caller keeps for one session (its terminal,
/// writer and output task); `W` is the downstream sender.
pub struct PtyHandler<C, W> {
    /// The entries, keyed by identifier text. A `Vec` with keys kept unique (see `wf`) rather
    /// than a `HashMap`: what Verus knows of a `HashMap` keyed by `String` is too little to
    /// prove lookups and removals, and sessions per connection are few, so a linear lookup is
    /// cheap.
    sessions: Vec<(String, C)>,
    ws_sender: Option<W>,
    table: Ghost<Map<Seq<char>, C>>,
}

impl<C, W> PtyHandler<C, W> {
    /// The session table.
    pub closed spec fn sessions(&self) -> Map<Seq<char>, C> {
        self.table@
    }

    /// The downstream sender, once one is set.
    pub closed spec fn sender(&self) -> Option<W> {
        self.ws_sender
    }

    /// The table's keys are unique and the entries are exactly the table.
    pub closed spec fn wf(&self) -> bool {
        &&& forall|i: int|
            0 <= i < self.sessions@.len() ==> #[trigger] self.table@.contains_key(self.sessions@[i].0@)
                && self.table@[self.sessions@[i].0@] == self.sessions@[i].1
        &&& forall|k: Seq<char>|
            #[trigger] self.table@.contains_key(k) ==> exists|i: int|
                0 <= i < self.sessions@.len() && #[trigger] self.sessions@[i].0@ == k
        &&& forall|i: int, j: int|
            0 <= i < self.sessions@.len() && 0 <= j < self.sessions@.len() && i != j
                ==> #[trigger] self.sessions@[i].0@ != #[trigger] self.sessions@[j].0@
    }

    /// A manager with no sessions and no downstream sender.
    pub fn new() -> (h: Self)
        ensures
            h.wf(),
            h.sessions() == Map::<Seq<char>, C>::empty(),
            h.sender() is None,
    {
        PtyHandler { sessions: Vec::new(), ws_sender: None, table: Ghost(Map::empty()) }
    }

    /// Stores or replaces the downstream sender.
    pub fn set_ws_sender(&mut self, sender: W)
        requires
            old(self).wf(),
        ensures
            final(self).wf(),
            final(self).sessions() == old(self).sessions(),
            final(self).sender() == Some(sender),
    {
        let ghost before = *self;
        self.ws_sender = Some(sender);
        assert(self.sessions@ == before.sessions@ && self.table@ == before.table@);
        assert(self.wf()) by {
            assert(before.wf());
        }
    }

    /// The downstream sender, once one is set.
    pub fn ws_sender(&self) -> (r: Option<&W>)
        ensures
            r matches Some(w) ==> self.sender() == Some(*w),
            r is None <==> self.sender() is None,
    {
        match &self.ws_sender {
            Some(w) => Some(w),
            None => None,
        }
    }

    fn find(&self, session_id: &str) -> (r: Option<usize>)
        requires
            self.wf(),
        ensures
            r matches Some(i) ==> i < self.sessions@.len() && self.sessions@[i as int].0@ == session_id@,
            r is None <==> !self.sessions().contains_key(session_id@),
    {
        let key = session_id.to_owned();
        let mut i: usize = 0;
        while i < self.sessions.len()
            invariant
                self.wf(),
                key@ == session_id@,
                i <= self.sessions@.len(),
                forall|j: int| 0 <= j < i ==> #[trigger] self.sessions@[j].0@ != key@,
            decreases self.sessions@.len() - i,
        {
            if self.sessions[i].0 == key {
                return Some(i);
            }
            i = i + 1;
        }
        None
    }

    /// Whether any session is live.
    pub fn has_sessions(&self) -> (r: bool)
        requires
            self.wf(),
        ensures
            r == exists|k: Seq<char>| self.sessions().contains_key(k),
    {
        if self.sessions.len() > 0 {
            assert(self.sessions().contains_key(self.sessions@[0].0@));
            true
        } else {
            assert forall|k: Seq<char>| !self.sessions().contains_key(k) by {
                if self.table@.contains_key(k) {
                    let j = choose|j: int| 0 <= j < self.sessions@.len() && #[trigger] self.sessions@[j].0@ == k;
                }
            }
            false
        }
    }

    /// The context of session `session_id`, for a resize or a write.
    pub fn session(&self, session_id: &str) -> (r: Result<&C, PtyError>)
        requires
            self.wf(),
        ensures
            self.sessions().contains_key(session_id@) ==> (r matches Ok(c) && *c == self.sessions()[session_id@]),
            !self.sessions().contains_key(session_id@) ==> (r matches Err(PtyError::SessionNotFound(s)) && s@ == session_id@),
    {
        match self.find(session_id) {
            Some(i) => Ok(&self.sessions[i].1),
            None => Err(PtyError::SessionNotFound(session_id.to_owned())),
        }
    }

    /// Opens an init: fails while no downstream sender is set, and otherwise hands out a fresh
    /// identifier (a UUID v4 in its 36-character text form) for the session to be spawned.
    pub fn begin_init(&self) -> (r: Result<String, PtyError>)
        ensures
            self.sender() is None ==> r matches Err(PtyError::DownstreamUnavailable),
            self.sender() is Some ==> (r matches Ok(id) && is_uuid_v4_text(id@) && id_fits(id@)),
    {
        if self.ws_sender.is_none() {
            Err(PtyError::DownstreamUnavailable)
        } else {
            let id = fresh_uuid();
            proof {
                lemma_uuid_text_fits(id@);
            }
            Ok(id)
        }
    }

    /// Completes an init: the spawned session's context goes into the table under its
    /// identifier, and the response names that identifier.
    pub fn complete_init(&mut self, session_id: String, context: C) -> (r: PtyResponse)
        requires
            old(self).wf(),
        ensures
            final(self).wf(),
            final(self).sessions() == old(self).sessions().insert(session_id@, context),
            final(self).sender() == old(self).sender(),
            r matches PtyResponse::InitComplete { session_id: s } && s@ == session_id@,
    {
        let response = PtyResponse::InitComplete { session_id: session_id.clone() };
        let ghost key = session_id@;
        match self.find(session_id.as_str()) {
            Some(i) => {
                let ghost old_sessions = self.sessions@;
                self.sessions.set(i, (session_id, context));
                self.table = Ghost(self.table@.insert(key, context));
                assert forall|k: Seq<char>| #[trigger] self.table@.contains_key(k) implies exists|j: int|
                    0 <= j < self.sessions@.len() && #[trigger] self.sessions@[j].0@ == k by {
                    if k != key {
                        let j = choose|j: int| 0 <= j < old_sessions.len() && #[trigger] old_sessions[j].0@ == k;
                        assert(self.sessions@[j].0@ == k);
                    } else {
                        assert(self.sessions@[i as int].0@ == k);
                    }
                }
            },
            None => {
                let ghost old_sessions = self.sessions@;
                self.sessions.push((session_id, context));
                self.table = Ghost(self.table@.insert(key, context));
                assert forall|k: Seq<char>| #[trigger] self.table@.contains_key(k) implies exists|j: int|
                    0 <= j < self.sessions@.len() && #[trigger] self.sessions@[j].0@ == k by {
                    if k != key {
                        let j = choose|j: int| 0 <= j < old_sessions.len() && #[trigger] old_sessions[j].0@ == k;
                        assert(self.sessions@[j].0@ == k);
                    } else {
                        assert(self.sessions@[old_sessions.len() as int].0@ == k);
                    }
                }
            },
        }
        response
    }

    /// Destroys session `session_id`: its entry leaves the table and its context is handed
    /// back, for the caller to stop its shell. An unknown identifier leaves the table as it
    /// was and is reported.
    pub fn handle_destroy(&mut self, session_id: &str) -> (r: Result<C, PtyError>)
        requires
            old(self).wf(),
        ensures
            final(self).wf(),
            final(self).sender() == old(self).sender(),
            old(self).sessions().contains_key(session_id@) ==> (r matches Ok(c)
                && c == old(self).sessions()[session_id@]
                && final(self).sessions() == old(self).sessions().remove(session_id@)),
            !old(self).sessions().contains_key(session_id@) ==> (r matches Err(PtyError::SessionNotFound(s))
                && s@ == session_id@
                && final(self).sessions() == old(self).sessions()),
    {
        match self.find(session_id) {
            Some(i) => {
                let ghost old_sessions = self.sessions@;
                let ghost key = session_id@;
                let (_, context) = self.sessions.remove(i);
                self.table = Ghost(self.table@.remove(key));
                assert forall|j: int| 0 <= j < self.sessions@.len() implies
                    #[trigger] self.table@.contains_key(self.sessions@[j].0@)
                    && self.table@[self.sessions@[j].0@] == self.sessions@[j].1 by {
                    if j < i {
                        assert(self.sessions@[j] == old_sessions[j]);
                    } else {
                        assert(self.sessions@[j] == old_sessions[j + 1]);
                    }
                }
                assert forall|k: Seq<char>| #[trigger] self.table@.contains_key(k) implies exists|j: int|
                    0 <= j < self.sessions@.len() && #[trigger] self.sessions@[j].0@ == k by {
                    let j = choose|j: int| 0 <= j < old_sessions.len() && #[trigger] old_sessions[j].0@ == k;
                    if j < i {
                        assert(self.sessions@[j].0@ == k);
                    } else {
                        assert(j != i);
                        assert(self.sessions@[j - 1].0@ == k);
                    }
                }
                assert forall|a: int, b: int|
                    0 <= a < self.sessions@.len() && 0 <= b < self.sessions@.len() && a != b
                    implies #[trigger] self.sessions@[a].0@ != #[trigger] self.sessions@[b].0@ by {
                    let oa = if a < i { a } else { a + 1 };
                    let ob = if b < i { b } else { b + 1 };
                    assert(self.sessions@[a] == old_sessions[oa]);
                    assert(self.sessions@[b] == old_sessions[ob]);
                }
                Ok(context)
            },
            None => Err(PtyError::SessionNotFound(session_id.to_owned())),
        }
    }

    /// Empties the table and hands back every context that was in it, for the caller to
    /// stop each shell and wait for each output task.
    pub fn cleanup_all(&mut self) -> (r: Vec<C>)
        requires
            old(self).wf(),
        ensures
            final(self).wf(),
            final(self).sessions() == Map::<Seq<char>, C>::empty(),
            final(self).sender() == old(self).sender(),
            r@.len() == old(self).sessions().dom().len(),
            forall|k: Seq<char>| #[trigger] old(self).sessions().contains_key(k)
                ==> exists|i: int| 0 <= i < r@.len() && r@[i] == old(self).sessions()[k],
    {
        proof {
            self.lemma_table_len();
        }
        let ghost old_table = self.table@;
        let ghost old_sessions = self.sessions@;
        let mut drained: Vec<(String, C)> = Vec::new();
        std::mem::swap(&mut drained, &mut self.sessions);
        self.table = Ghost(Map::empty());
        let mut r: Vec<C> = Vec::new();
        let mut i: usize = 0;
        let n = drained.len();
        while i < n
            invariant
                n == old_sessions.len(),
                drained@ == old_sessions.subrange(i as int, n as int),
                i <= n,
                r@.len() == i,
                forall|j: int| 0 <= j < i ==> r@[j] == #[trigger] old_sessions[j].1,
            decreases n - i,
        {
            let (_, c) = drained.remove(0);
            r.push(c);
            i = i + 1;
            assert(drained@ =~= old_sessions.subrange(i as int, n as int));
        }
        assert forall|k: Seq<char>| #[trigger] old_table.contains_key(k)
            implies exists|j: int| 0 <= j < r@.len() && r@[j] == old_table[k] by {
            let j = choose|j: int| 0 <= j < old_sessions.len() && #[trigger] old_sessions[j].0@ == k;
            assert(r@[j] == old_sessions[j].1);
        }
        r
    }

    proof fn lemma_table_len(&self)
        requires
            self.wf(),
        ensures
            self.table@.dom().finite(),
            self.table@.dom().len() == self.sessions@.len(),
    {
        let keys = self.sessions@.map_values(|e: (String, C)| e.0@);
        assert forall|a: int, b: int| 0 <= a < b < keys.len() implies keys[a] != keys[b] by {
            assert(self.sessions@[a].0@ != self.sessions@[b].0@);
        }
        assert(keys.no_duplicates());
        assert(keys.to_set() =~= self.table@.dom()) by {
            assert forall|k: Seq<char>| self.table@.dom().contains(k) implies keys.to_set().contains(k) by {
                let j = choose|j: int| 0 <= j < self.sessions@.len() && #[trigger] self.sessions@[j].0@ == k;
                assert(keys[j] == k);
            }
        }
        keys.unique_seq_to_set();
    }
}

/// An identifier that an init has put into the table is destroyed exactly once: the first
/// destroy finds it and removes it, and a second finds nothing.
pub proof fn lemma_destroy_after_init<C>(table: Map<Seq<char>, C>, session_id: Seq<char>, context: C)
    ensures
        table.insert(session_id, context).contains_key(session_id),
        table.insert(session_id, context)[session_id] == context,
        !table.insert(session_id, context).remove(session_id).contains_key(session_id),
{
}

/// Destroying an unknown identifier leaves the table as it was, so doing it again meets the
/// same table and earns the same error.
pub proof fn lemma_destroy_unknown_is_stable<C>(table: Map<Seq<char>, C>, session_id: Seq<char>)
    requires
        !table.contains_key(session_id),
    ensures
        !table.contains_key(session_id),
        table.remove(session_id) == table,
{
    assert(table.remove(session_id) =~= table);
}

/// After a cleanup the table is empty, so no session is reported live.
pub proof fn lemma_no_sessions_after_cleanup<C>(table: Map<Seq<char>, C>)
    requires
        table == Map::<Seq<char>, C>::empty(),
    ensures
        !(exists|k: Seq<char>| table.contains_key(k)),
{
}

} // verus!
