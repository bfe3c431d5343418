use vstd::prelude::*;
use crate::clock::{local_now_text, is_local_datetime};
use crate::types::{TcpError, TcpConnection, TcpConnectionRequest, TcpConnectionResult, not_found_detail, id_taken_detail};

verus! {

/// The live connections, each under the id that `connect` gave it.
pub struct ConnectionRegistry<C> {
    entries: Vec<(String, C)>,
    live: Ghost<Map<Seq<char>, C>>,
}

impl<C> View for ConnectionRegistry<C> {
    type V = Map<Seq<char>, C>;

    closed spec fn view(&self) -> Map<Seq<char>, C> {
        self.live@
    }
}

/// A lowercase hexadecimal digit.
pub open spec fn is_lower_hex(c: char) -> bool {
    ('0' <= c && c <= '9') || ('a' <= c && c <= 'f')
}

/// A random (version 4) UUID in lowercase hyphenated form: 36 characters,
/// hyphens at 8, 13, 18 and 23, hex digits elsewhere, the version digit `4`
/// at 14 and a variant digit of `8`, `9`, `a` or `b` at 19.
pub open spec fn is_hyphenated_v4(s: Seq<char>) -> bool {
    &&& s.len() == 36
    &&& forall|i: int| #![trigger s[i]] 0 <= i < 36 ==> if i == 8 || i == 13 || i == 18 || i == 23 {
        s[i] == '-'
    } else {
        is_lower_hex(s[i])
    }
    &&& s[14] == '4'
    &&& (s[19] == '8' || s[19] == '9' || s[19] == 'a' || s[19] == 'b')
}

/// Relies on uuid's `Uuid::new_v4` and its `Display`: a random version 4
/// identifier, written in lowercase hyphenated form. It panics only if the
/// operating system's random source fails.
#[verifier::external_body]
fn new_connection_id() -> (r: String)
    ensures
        is_hyphenated_v4(r@),
{
    uuid::Uuid::new_v4().to_string()
}

impl<C> ConnectionRegistry<C> {
    /// Each entry is what the model maps its id to, the model holds no other
    /// id, and no id is held twice.
    pub closed spec fn wf(&self) -> bool {
        &&& forall|i: int| 0 <= i < self.entries@.len() ==>
            #[trigger] self.live@.contains_key(self.entries@[i].0@)
                && self.live@[self.entries@[i].0@] == self.entries@[i].1
        &&& forall|k: Seq<char>| #[trigger] self.live@.contains_key(k) ==>
            exists|i: int| 0 <= i < self.entries@.len() && #[trigger] self.entries@[i].0@ == k
        &&& forall|i: int, j: int| 0 <= i < j < self.entries@.len() ==>
            #[trigger] self.entries@[i].0@ != #[trigger] self.entries@[j].0@
    }

    /// A registry with no connection.
    pub fn new() -> (r: ConnectionRegistry<C>)
        ensures
            r.wf(),
            r@ == Map::<Seq<char>, C>::empty(),
    {
        ConnectionRegistry { entries: Vec::new(), live: Ghost(Map::empty()) }
    }

    /// The number of live connections.
    pub fn len(&self) -> (r: usize)
        requires
            self.wf(),
        ensures
            self@.dom().finite(),
            r == self@.len(),
    {
        proof {
            self.lemma_len();
        }
        self.entries.len()
    }

    /// A well-formed registry holds finitely many connections.
    pub proof fn lemma_view_finite(&self)
        requires
            self.wf(),
        ensures
            self@.dom().finite(),
    {
        self.lemma_len();
    }

    proof fn lemma_len(&self)
        requires
            self.wf(),
        ensures
            self@.dom().finite(),
            self@.len() == self.entries@.len(),
    {
        let keys = Seq::new(self.entries@.len(), |i: int| self.entries@[i].0@);
        assert(keys.no_duplicates());
        assert(keys.to_set() =~= self@.dom()) by {
            assert forall|k: Seq<char>| self@.dom().contains(k) implies keys.to_set().contains(k) by {
                let i = choose|i: int| 0 <= i < self.entries@.len() && #[trigger] self.entries@[i].0@ == k;
                assert(keys[i] == k);
            }
            assert forall|k: Seq<char>| keys.to_set().contains(k) implies self@.dom().contains(k) by {
                let i = choose|i: int| 0 <= i < keys.len() && keys[i] == k;
                assert(self.live@.contains_key(self.entries@[i].0@));
            }
        }
        keys.unique_seq_to_set();
    }

    fn position(&self, id: &str) -> (r: Option<usize>)
        requires
            self.wf(),
        ensures
            r is None <==> !self@.contains_key(id@),
            r matches Some(i) ==> i < self.entries@.len() && self.entries@[i as int].0@ == id@,
    {
        let key = String::from_str(id);
        let mut i: usize = 0;
        while i < self.entries.len()
            invariant
                self.wf(),
                i <= self.entries@.len(),
                key@ == id@,
                forall|j: int| 0 <= j < i ==> self.entries@[j].0@ != id@,
            decreases self.entries@.len() - i,
        {
            if self.entries[i].0 == key {
                assert(self.live@.contains_key(self.entries@[i as int].0@));
                return Some(i);
            }
            i = i + 1;
        }
        proof {
            if self@.contains_key(id@) {
                let j = choose|j: int| 0 <= j < self.entries@.len() && #[trigger] self.entries@[j].0@ == id@;
            }
        }
        None
    }

    /// Whether a live connection holds `id`.
    pub fn contains(&self, id: &str) -> (r: bool)
        requires
            self.wf(),
        ensures
            r == self@.contains_key(id@),
    {
        self.position(id).is_some()
    }

    /// The connection that holds `id`, or `ConnectionNotFound`.
    pub fn get(&self, id: &str) -> (r: Result<&C, TcpError>)
        requires
            self.wf(),
        ensures
            r is Ok <==> self@.contains_key(id@),
            r matches Ok(c) ==> *c == self@[id@],
            r matches Err(e) ==> e is ConnectionNotFound && e->ConnectionNotFound_0@ == not_found_detail(id@),
    {
        match self.position(id) {
            Some(i) => Ok(&self.entries[i].1),
            None => Err(TcpError::not_found(id)),
        }
    }

    /// Adds `conn` under `id` when no live connection holds `id`; otherwise
    /// changes nothing and hands `conn` back.
    pub fn insert_new(&mut self, id: String, conn: C) -> (r: Result<(), C>)
        requires
            old(self).wf(),
        ensures
            final(self).wf(),
            r is Ok <==> !old(self)@.contains_key(id@),
            r is Ok ==> final(self)@ == old(self)@.insert(id@, conn),
            r matches Err(c) ==> final(self)@ == old(self)@ && c == conn,
    {
        if self.contains(id.as_str()) {
            return Err(conn);
        }
        let ghost key = id@;
        let ghost old_entries = self.entries@;
        self.entries.push((id, conn));
        self.live = Ghost(self.live@.insert(key, conn));
        proof {
            let n = old_entries.len();
            assert(self.entries@[n as int].0@ == key);
            assert forall|k: Seq<char>| #[trigger] self.live@.contains_key(k) implies
                exists|i: int| 0 <= i < self.entries@.len() && #[trigger] self.entries@[i].0@ == k by {
                if k != key {
                    let i = choose|i: int| 0 <= i < old_entries.len() && #[trigger] old_entries[i].0@ == k;
                    assert(self.entries@[i].0@ == k);
                }
            }
            assert forall|i: int, j: int| 0 <= i < j < self.entries@.len() implies
                #[trigger] self.entries@[i].0@ != #[trigger] self.entries@[j].0@ by {
                if j == n {
                    assert(old(self).live@.contains_key(old_entries[i].0@));
                }
            }
        }
        Ok(())
    }

    /// Removes the connection that holds `id` and hands it back, or reports
    /// `ConnectionNotFound` and changes nothing.
    pub fn remove(&mut self, id: &str) -> (r: Result<C, TcpError>)
        requires
            old(self).wf(),
        ensures
            final(self).wf(),
            r is Ok <==> old(self)@.contains_key(id@),
            r matches Ok(c) ==> c == old(self)@[id@] && final(self)@ == old(self)@.remove(id@),
            r matches Err(e) ==> final(self)@ == old(self)@ && e is ConnectionNotFound
                && e->ConnectionNotFound_0@ == not_found_detail(id@),
    {
        match self.position(id) {
            None => Err(TcpError::not_found(id)),
            Some(i) => {
                let ghost old_entries = self.entries@;
                let (_, c) = self.entries.remove(i);
                self.live = Ghost(self.live@.remove(id@));
                proof {
                    assert forall|j: int| 0 <= j < self.entries@.len() implies
                        #[trigger] self.live@.contains_key(self.entries@[j].0@)
                            && self.live@[self.entries@[j].0@] == self.entries@[j].1 by {
                        let oj = if j < i { j } else { j + 1 };
                        assert(self.entries@[j] == old_entries[oj]);
                    }
                    assert forall|k: Seq<char>| #[trigger] self.live@.contains_key(k) implies
                        exists|j: int| 0 <= j < self.entries@.len() && #[trigger] self.entries@[j].0@ == k by {
                        let oj = choose|j: int| 0 <= j < old_entries.len() && #[trigger] old_entries[j].0@ == k;
                        if oj < i {
                            assert(self.entries@[oj].0@ == k);
                        } else {
                            assert(self.entries@[oj - 1].0@ == k);
                        }
                    }
                    assert forall|a: int, b: int| 0 <= a < b < self.entries@.len() implies
                        #[trigger] self.entries@[a].0@ != #[trigger] self.entries@[b].0@ by {
                        let oa = if a < i { a } else { a + 1 };
                        let ob = if b < i { b } else { b + 1 };
                        assert(self.entries@[a] == old_entries[oa]);
                        assert(self.entries@[b] == old_entries[ob]);
                    }
                }
                Ok(c)
            },
        }
    }

    /// Closes the connection that holds `id`: removes it and hands it back with
    /// the acknowledgement, or reports `ConnectionNotFound` and changes nothing.
    pub fn disconnect(&mut self, id: &str) -> (r: Result<(C, String), TcpError>)
        requires
            old(self).wf(),
        ensures
            final(self).wf(),
            r is Ok <==> old(self)@.contains_key(id@),
            r matches Ok((c, ack)) ==> c == old(self)@[id@] && final(self)@ == old(self)@.remove(id@)
                && ack@ == closed_ack_text(),
            r matches Err(e) ==> final(self)@ == old(self)@ && e is ConnectionNotFound
                && e->ConnectionNotFound_0@ == not_found_detail(id@),
    {
        let c = self.remove(id)?;
        Ok((c, String::from_str("Connection closed successfully")))
    }

    /// Registers `conn` under the given `id`, created at `connected_at`, and
    /// describes it; an `id` that a live connection already holds is refused
    /// and nothing changes.
    pub fn register_at(&mut self, request: &TcpConnectionRequest, id: String, connected_at: String, conn: C) -> (r: Result<TcpConnectionResult, TcpError>)
        requires
            old(self).wf(),
        ensures
            final(self).wf(),
            r is Ok <==> !old(self)@.contains_key(id@),
            r is Ok ==> final(self)@ == old(self)@.insert(id@, conn),
            r matches Ok(res) ==> res.success && res.error is None,
            r matches Ok(res) ==> (res.connection matches Some(d) && d.id@ == id@
                && d.host@ == request.host@ && d.port == request.port && d.connected
                && d.connected_at@ == connected_at@),
            r matches Err(e) ==> final(self)@ == old(self)@ && e is ConnectionFailed
                && e->ConnectionFailed_0@ == id_taken_detail(id@),
    {
        let descriptor = TcpConnection {
            id: id.clone(),
            host: request.host.clone(),
            port: request.port,
            connected: true,
            connected_at,
        };
        let key_text = id.clone();
        match self.insert_new(id, conn) {
            Ok(()) => Ok(TcpConnectionResult { success: true, connection: Some(descriptor), error: None }),
            Err(_) => Err(TcpError::id_taken(key_text.as_str())),
        }
    }

    /// Registers `conn` under a fresh random id, stamped with the local time.
    /// It succeeds unless a live connection already holds the id drawn, which
    /// can only be when some live id has the form of a random identifier.
    pub fn register(&mut self, request: &TcpConnectionRequest, conn: C) -> (r: Result<TcpConnectionResult, TcpError>)
        requires
            old(self).wf(),
        ensures
            final(self).wf(),
            r matches Ok(res) ==> res.success && res.error is None,
            r matches Ok(res) ==> (res.connection matches Some(d)
                && !old(self)@.contains_key(d.id@) && final(self)@ == old(self)@.insert(d.id@, conn)
                && is_hyphenated_v4(d.id@) && d.host@ == request.host@ && d.port == request.port && d.connected
                && is_local_datetime(d.connected_at@)),
            r matches Err(e) ==> final(self)@ == old(self)@ && e is ConnectionFailed,
            r is Err ==> exists|k: Seq<char>| is_hyphenated_v4(k) && #[trigger] old(self)@.contains_key(k),
    {
        let id = new_connection_id();
        let connected_at = local_now_text();
        self.register_at(request, id, connected_at, conn)
    }
}

/// The acknowledgement of a closed connection.
pub open spec fn closed_ack_text() -> Seq<char> {
    "Connection closed successfully"@
}

/// Connections registered one after another, with no removal in between, never
/// share an id, and both stay live.
pub proof fn lemma_registered_ids_distinct<C>(before: Map<Seq<char>, C>, a: Seq<char>, ca: C, b: Seq<char>, cb: C)
    requires
        !before.contains_key(a),
        !before.insert(a, ca).contains_key(b),
    ensures
        a != b,
        before.insert(a, ca).insert(b, cb).contains_key(a),
        before.insert(a, ca).insert(b, cb).contains_key(b),
{
}

} // verus!
