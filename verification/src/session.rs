//! Session metadata and the process-wide session registry: the table of
//! active sessions keyed by their opaque ids. A session's presence in the
//! registry is the sole source of truth for whether it is live from the
//! management API's perspective.

use vstd::prelude::*;

verus! {

/// Lifecycle status of a session record.
#[derive(Debug, Clone, Copy, PartialEq, Eq, Structural)]
pub enum SessionStatus {
    Created,
    Active,
    Closed,
}

/// The kind of wire transport behind a session's connection.
#[derive(Debug, Clone, Copy, PartialEq, Eq, Structural)]
pub enum ConnectionType {
    WebSocket,
    WebTransport,
}

/// Metadata record describing one active terminal session.
#[derive(Debug)]
pub struct Session {
    pub session_id: String,
    pub user_id: String,
    pub title: Option<String>,
    pub status: SessionStatus,
    pub columns: u16,
    pub rows: u16,
    pub working_directory: Option<String>,
    pub shell_type: String,
    pub connection_type: ConnectionType,
    /// Creation time in milliseconds since the Unix epoch.
    pub created_at: u64,
}

impl Clone for Session {
    fn clone(&self) -> (r: Session)
        ensures
            r == *self,
    {
        Session {
            session_id: self.session_id.clone(),
            user_id: self.user_id.clone(),
            title: match &self.title {
                Some(t) => Some(t.clone()),
                None => None,
            },
            status: self.status,
            columns: self.columns,
            rows: self.rows,
            working_directory: match &self.working_directory {
                Some(w) => Some(w.clone()),
                None => None,
            },
            shell_type: self.shell_type.clone(),
            connection_type: self.connection_type,
            created_at: self.created_at,
        }
    }
}

impl Session {
    /// Record a new geometry on the metadata.
    pub fn resize(&mut self, columns: u16, rows: u16)
        ensures
            final(self).columns == columns,
            final(self).rows == rows,
            final(self).session_id == old(self).session_id,
            final(self).user_id == old(self).user_id,
            final(self).title == old(self).title,
            final(self).status == old(self).status,
            final(self).working_directory == old(self).working_directory,
            final(self).shell_type == old(self).shell_type,
            final(self).connection_type == old(self).connection_type,
            final(self).created_at == old(self).created_at,
    {
        self.columns = columns;
        self.rows = rows;
    }

    /// Record a lifecycle transition on the metadata.
    pub fn set_status(&mut self, status: SessionStatus)
        ensures
            final(self).status == status,
            final(self).session_id == old(self).session_id,
            final(self).user_id == old(self).user_id,
            final(self).title == old(self).title,
            final(self).columns == old(self).columns,
            final(self).rows == old(self).rows,
            final(self).working_directory == old(self).working_directory,
            final(self).shell_type == old(self).shell_type,
            final(self).connection_type == old(self).connection_type,
            final(self).created_at == old(self).created_at,
    {
        self.status = status;
    }
}

/// What a management-API caller asks for when creating a session; omitted
/// fields fall back to defaults.
#[derive(Debug)]
pub struct CreateSessionRequest {
    pub user_id: String,
    pub title: Option<String>,
    pub working_directory: Option<String>,
    pub shell_type: Option<String>,
    pub columns: Option<u16>,
    pub rows: Option<u16>,
}

/// The index of the first session whose id is `id`, or the sequence's
/// length if there is none.
pub open spec fn id_index(sessions: Seq<Session>, id: Seq<char>) -> nat
    decreases sessions.len(),
{
    if sessions.len() == 0 {
        0
    } else if sessions[0].session_id@ == id {
        0
    } else {
        1 + id_index(sessions.drop_first(), id)
    }
}

/// `id_index` really is the first match: it never passes the length, every
/// entry before it has another id, and the entry at it (when in range) has
/// the id.
pub proof fn lemma_id_index(sessions: Seq<Session>, id: Seq<char>)
    ensures
        id_index(sessions, id) <= sessions.len(),
        forall|j: int| 0 <= j < id_index(sessions, id) ==> (#[trigger] sessions[j]).session_id@
            != id,
        id_index(sessions, id) < sessions.len() ==> sessions[id_index(sessions, id) as int].session_id@
            == id,
    decreases sessions.len(),
{
    if sessions.len() == 0 {
    } else if sessions[0].session_id@ == id {
    } else {
        lemma_id_index(sessions.drop_first(), id);
        assert forall|j: int| 0 <= j < id_index(sessions, id) implies (#[trigger] sessions[j]).session_id@
            != id by {
            if j > 0 {
                assert(sessions.drop_first()[j - 1] == sessions[j]);
            }
        }
        if id_index(sessions, id) < sessions.len() {
            assert(sessions.drop_first()[id_index(sessions, id) - 1] == sessions[id_index(
                sessions,
                id,
            ) as int]);
        }
    }
}

/// A position scanned to by "first session whose id matches, else the
/// length" is exactly `id_index`.
pub proof fn lemma_id_index_unique(sessions: Seq<Session>, id: Seq<char>, k: int)
    requires
        0 <= k <= sessions.len(),
        forall|j: int| 0 <= j < k ==> (#[trigger] sessions[j]).session_id@ != id,
        k < sessions.len() ==> sessions[k].session_id@ == id,
    ensures
        id_index(sessions, id) == k,
    decreases sessions.len(),
{
    if sessions.len() == 0 {
    } else if sessions[0].session_id@ == id {
        assert(k == 0);
    } else {
        assert(k >= 1);
        assert forall|j: int| 0 <= j < k - 1 implies (#[trigger] sessions.drop_first()[j]).session_id@
            != id by {
            assert(sessions.drop_first()[j] == sessions[j + 1]);
        }
        if k - 1 < sessions.drop_first().len() {
            assert(sessions.drop_first()[k - 1] == sessions[k]);
        }
        lemma_id_index_unique(sessions.drop_first(), id, k - 1);
    }
}

/// Relies on uuid::Uuid::new_v4 and Uuid::to_string: a freshly generated
/// random id rendered in the hyphenated textual form, which is always 36
/// characters long. Nothing is assumed about which id comes back.
#[verifier::external_body]
fn fresh_session_id() -> (r: String)
    ensures
        r@.len() == 36,
{
    uuid::Uuid::new_v4().to_string()
}

/// Relies on std::time::SystemTime::now and duration_since: the wall
/// clock's milliseconds since the Unix epoch, or 0 when the clock reads
/// earlier than the epoch. Nothing is assumed about the value.
#[verifier::external_body]
fn now_millis() -> (r: u64) {
    match std::time::SystemTime::now().duration_since(std::time::UNIX_EPOCH) {
        Ok(d) => d.as_millis() as u64,
        Err(_) => 0,
    }
}

/// The process-wide table of active sessions. All accesses from concurrent
/// sessions are serialized by the single lock its owner wraps it in; the
/// operations here are the read/modify/write steps performed under that
/// lock.
pub struct SessionRegistry {
    sessions: Vec<Session>,
}

impl SessionRegistry {
    /// The registry's contents, in insertion order.
    pub closed spec fn sessions_seq(self) -> Seq<Session> {
        self.sessions@
    }

    /// No two entries share an id.
    pub open spec fn wf(self) -> bool {
        forall|i: int, j: int|
            0 <= i < j < self.sessions_seq().len() ==> (#[trigger] self.sessions_seq()[i]).session_id@
                != (#[trigger] self.sessions_seq()[j]).session_id@
    }

    /// Whether some entry has this id.
    pub open spec fn contains_id(self, id: Seq<char>) -> bool {
        id_index(self.sessions_seq(), id) < self.sessions_seq().len()
    }

    /// The entry with this id (meaningful when `contains_id`).
    pub open spec fn session_at(self, id: Seq<char>) -> Session {
        self.sessions_seq()[id_index(self.sessions_seq(), id) as int]
    }

    /// An empty registry.
    pub fn new() -> (r: SessionRegistry)
        ensures
            r.sessions_seq().len() == 0,
            r.wf(),
    {
        SessionRegistry { sessions: Vec::new() }
    }

    /// How many sessions are live.
    pub fn len(&self) -> (r: usize)
        ensures
            r == self.sessions_seq().len(),
    {
        self.sessions.len()
    }

    /// The index of the entry with this id, or the length when absent.
    fn find_index(&self, id: &String) -> (r: usize)
        ensures
            r == id_index(self.sessions_seq(), id@),
    {
        let mut i: usize = 0;
        while i < self.sessions.len()
            invariant
                i <= self.sessions_seq().len(),
                forall|j: int|
                    0 <= j < i ==> (#[trigger] self.sessions_seq()[j]).session_id@ != id@,
            decreases self.sessions_seq().len() - i,
        {
            if self.sessions[i].session_id == *id {
                proof {
                    lemma_id_index_unique(self.sessions_seq(), id@, i as int);
                }
                return i;
            }
            i += 1;
        }
        proof {
            lemma_id_index_unique(self.sessions_seq(), id@, self.sessions_seq().len() as int);
        }
        self.sessions.len()
    }

    /// Add a session under its id. Succeeds, appending exactly this one
    /// entry, if and only if the id is not yet present; a registry with
    /// that id already in it is left untouched.
    pub fn add_session(&mut self, session: Session) -> (r: bool)
        requires
            old(self).wf(),
        ensures
            r == !old(self).contains_id(session.session_id@),
            r ==> final(self).sessions_seq() == old(self).sessions_seq().push(session),
            !r ==> *final(self) == *old(self),
            final(self).wf(),
            final(self).contains_id(session.session_id@),
    {
        let idx = self.find_index(&session.session_id);
        if idx < self.sessions.len() {
            return false;
        }
        proof {
            let s0 = self.sessions_seq();
            let s1 = s0.push(session);
            assert forall|i: int, j: int| 0 <= i < j < s1.len() implies (#[trigger] s1[i]).session_id@
                != (#[trigger] s1[j]).session_id@ by {
                if j < s0.len() {
                    assert(s1[i] == s0[i] && s1[j] == s0[j]);
                } else {
                    assert(s1[j] == session);
                    assert(s1[i] == s0[i]);
                    if s0[i].session_id@ == session.session_id@ {
                        lemma_id_index_unique_bound(s0, session.session_id@, i);
                    }
                }
            }
            lemma_id_index_unique(s1, session.session_id@, s0.len() as int);
        }
        self.sessions.push(session);
        true
    }

    /// Look a session up by id: a copy of the entry when present, and a
    /// distinct "not found" outcome when not.
    pub fn get_session(&self, id: &String) -> (r: Option<Session>)
        ensures
            self.contains_id(id@) ==> r == Some(self.session_at(id@)),
            !self.contains_id(id@) ==> r is None,
    {
        let idx = self.find_index(id);
        if idx < self.sessions.len() {
            Some(self.sessions[idx].clone())
        } else {
            None
        }
    }

    /// Copies of all live sessions, in insertion order.
    pub fn list_sessions(&self) -> (r: Vec<Session>)
        ensures
            r@ == self.sessions_seq(),
    {
        let mut out: Vec<Session> = Vec::new();
        let mut i: usize = 0;
        while i < self.sessions.len()
            invariant
                i <= self.sessions_seq().len(),
                out@ == self.sessions_seq().subrange(0, i as int),
            decreases self.sessions_seq().len() - i,
        {
            out.push(self.sessions[i].clone());
            proof {
                assert(self.sessions_seq().subrange(0, i as int).push(self.sessions_seq()[i as int])
                    =~= self.sessions_seq().subrange(0, i + 1));
            }
            i += 1;
        }
        proof {
            assert(self.sessions_seq().subrange(0, self.sessions_seq().len() as int)
                =~= self.sessions_seq());
        }
        out
    }

    /// Replace the entry that shares `session`'s id. Succeeds if and only
    /// if the id is present; nothing else changes either way.
    pub fn update_session(&mut self, session: Session) -> (r: bool)
        requires
            old(self).wf(),
        ensures
            r == old(self).contains_id(session.session_id@),
            r ==> final(self).sessions_seq() == old(self).sessions_seq().update(
                id_index(old(self).sessions_seq(), session.session_id@) as int,
                session,
            ),
            !r ==> *final(self) == *old(self),
            final(self).wf(),
    {
        let idx = self.find_index(&session.session_id);
        if idx >= self.sessions.len() {
            return false;
        }
        proof {
            let s0 = self.sessions_seq();
            let s1 = s0.update(idx as int, session);
            lemma_id_index(s0, session.session_id@);
            assert(s0[idx as int].session_id@ == session.session_id@);
            assert forall|i: int, j: int| 0 <= i < j < s1.len() implies (#[trigger] s1[i]).session_id@
                != (#[trigger] s1[j]).session_id@ by {
                assert(s0[i].session_id@ != s0[j].session_id@);
                if i == idx as int {
                    assert(s1[i].session_id@ == s0[i].session_id@);
                }
                if j == idx as int {
                    assert(s1[j].session_id@ == s0[j].session_id@);
                }
            }
        }
        self.sessions[idx] = session;
        true
    }

    /// Update the recorded geometry of the session with this id: a
    /// successful outcome if and only if the id is present.
    pub fn resize_session(&mut self, id: &String, columns: u16, rows: u16) -> (r: bool)
        requires
            old(self).wf(),
        ensures
            r == old(self).contains_id(id@),
            final(self).wf(),
            final(self).sessions_seq().len() == old(self).sessions_seq().len(),
            r ==> {
                let i = id_index(old(self).sessions_seq(), id@) as int;
                let s2 = final(self).sessions_seq()[i];
                let s1 = old(self).sessions_seq()[i];
                &&& final(self).sessions_seq() == old(self).sessions_seq().update(i, s2)
                &&& s2.columns == columns
                &&& s2.rows == rows
                &&& s2.session_id == s1.session_id
                &&& s2.user_id == s1.user_id
                &&& s2.title == s1.title
                &&& s2.status == s1.status
                &&& s2.working_directory == s1.working_directory
                &&& s2.shell_type == s1.shell_type
                &&& s2.connection_type == s1.connection_type
                &&& s2.created_at == s1.created_at
            },
            !r ==> *final(self) == *old(self),
    {
        proof {
            lemma_id_index(self.sessions_seq(), id@);
        }
        match self.get_session(id) {
            Some(mut session) => {
                session.resize(columns, rows);
                let updated = self.update_session(session);
                proof {
                    assert(updated);
                }
                true
            },
            None => false,
        }
    }

    /// Remove the session with this id, handing the removed record back
    /// for confirmation: present if and only if the id was live. After the
    /// call the id is gone, so a second removal reports "not found" — the
    /// entry leaves exactly once.
    pub fn remove_session(&mut self, id: &String) -> (r: Option<Session>)
        requires
            old(self).wf(),
        ensures
            old(self).contains_id(id@) ==> r == Some(old(self).session_at(id@))
                && final(self).sessions_seq() == old(self).sessions_seq().remove(
                id_index(old(self).sessions_seq(), id@) as int,
            ),
            !old(self).contains_id(id@) ==> r is None && *final(self) == *old(self),
            final(self).wf(),
            !final(self).contains_id(id@),
    {
        let idx = self.find_index(id);
        if idx >= self.sessions.len() {
            proof {
                lemma_id_index_oob(self.sessions_seq(), id@);
            }
            return None;
        }
        let removed = self.sessions.remove(idx);
        proof {
            let s0 = old(self).sessions_seq();
            let s1 = self.sessions_seq();
            assert forall|i: int, j: int| 0 <= i < j < s1.len() implies (#[trigger] s1[i]).session_id@
                != (#[trigger] s1[j]).session_id@ by {
                let i0: int = if i < idx as int {
                    i
                } else {
                    i + 1
                };
                let j0: int = if j < idx as int {
                    j
                } else {
                    j + 1
                };
                assert(s1[i] == s0[i0] && s1[j] == s0[j0]);
                assert(s0[i0].session_id@ != s0[j0].session_id@);
            }
            lemma_id_index(s0, id@);
            assert forall|i: int| 0 <= i < s1.len() implies (#[trigger] s1[i]).session_id@
                != id@ by {
                let i0: int = if i < idx as int {
                    i
                } else {
                    i + 1
                };
                assert(s1[i] == s0[i0]);
                if i0 > idx as int {
                    assert(s0[idx as int].session_id@ != s0[i0].session_id@);
                }
            }
            lemma_id_index_unique(s1, id@, s1.len() as int);
        }
        Some(removed)
    }

    /// Create a session for a management-API request: a fresh random id, a
    /// creation timestamp, and the request's fields with defaults filled
    /// in (80x24 geometry, the configured default shell). The new record —
    /// and no other change — lands in the registry, unless the freshly
    /// drawn id collides with a live one, in which case nothing changes.
    pub fn create_session(
        &mut self,
        req: CreateSessionRequest,
        connection_type: ConnectionType,
        default_shell_type: &String,
    ) -> (r: Option<Session>)
        requires
            old(self).wf(),
        ensures
            final(self).wf(),
            r matches Some(s) ==> {
                &&& !old(self).contains_id(s.session_id@)
                &&& final(self).sessions_seq() == old(self).sessions_seq().push(s)
                &&& s.session_id@.len() == 36
                &&& s.user_id == req.user_id
                &&& s.title == req.title
                &&& s.status is Created
                &&& s.columns == (match req.columns {
                    Some(c) => c,
                    None => 80u16,
                })
                &&& s.rows == (match req.rows {
                    Some(c) => c,
                    None => 24u16,
                })
                &&& s.working_directory == req.working_directory
                &&& (req.shell_type matches Some(t) ==> s.shell_type == t)
                &&& (req.shell_type is None ==> s.shell_type@ == default_shell_type@)
                &&& s.connection_type == connection_type
            },
            r is None ==> *final(self) == *old(self),
            (forall|i: int|
                0 <= i < old(self).sessions_seq().len() ==> (#[trigger] old(
                    self,
                ).sessions_seq()[i]).session_id@.len() != 36) ==> r is Some,
    {
        let session_id = fresh_session_id();
        let created_at = now_millis();
        let columns: u16 = match req.columns {
            Some(c) => c,
            None => 80,
        };
        let rows: u16 = match req.rows {
            Some(c) => c,
            None => 24,
        };
        let shell_type: String = match req.shell_type {
            Some(t) => t,
            None => default_shell_type.clone(),
        };
        let session = Session {
            session_id,
            user_id: req.user_id,
            title: req.title,
            status: SessionStatus::Created,
            columns,
            rows,
            working_directory: req.working_directory,
            shell_type,
            connection_type,
            created_at,
        };
        let copy = session.clone();
        if self.add_session(session) {
            Some(copy)
        } else {
            proof {
                lemma_id_index(old(self).sessions_seq(), copy.session_id@);
                let hit = id_index(old(self).sessions_seq(), copy.session_id@) as int;
                assert(old(self).sessions_seq()[hit].session_id@.len() == 36);
            }
            None
        }
    }
}

/// When index `i` holds the id, the first index with the id is at most `i`.
proof fn lemma_id_index_unique_bound(sessions: Seq<Session>, id: Seq<char>, i: int)
    requires
        0 <= i < sessions.len(),
        sessions[i].session_id@ == id,
    ensures
        id_index(sessions, id) <= i,
    decreases sessions.len(),
{
    if sessions[0].session_id@ == id {
    } else {
        assert(i >= 1);
        assert(sessions.drop_first()[i - 1] == sessions[i]);
        lemma_id_index_unique_bound(sessions.drop_first(), id, i - 1);
    }
}

/// When no entry holds the id, `id_index` lands at the length.
proof fn lemma_id_index_oob(sessions: Seq<Session>, id: Seq<char>)
    requires
        id_index(sessions, id) >= sessions.len(),
    ensures
        id_index(sessions, id) == sessions.len(),
    decreases sessions.len(),
{
    if sessions.len() == 0 {
    } else if sessions[0].session_id@ == id {
    } else {
        lemma_id_index_oob(sessions.drop_first(), id);
    }
}

/// Law: a session added under a fresh id and then removed by that id
/// leaves the registry exactly as it was, whatever happened in between to
/// other entries' order is not needed — the two operations cancel.
pub proof fn law_add_then_remove(
    before: SessionRegistry,
    between: SessionRegistry,
    after: SessionRegistry,
    session: Session,
)
    requires
        before.wf(),
        !before.contains_id(session.session_id@),
        between.sessions_seq() == before.sessions_seq().push(session),
        after.sessions_seq() == between.sessions_seq().remove(
            id_index(between.sessions_seq(), session.session_id@) as int,
        ),
    ensures
        after.sessions_seq() == before.sessions_seq(),
{
    let s0 = before.sessions_seq();
    let s1 = between.sessions_seq();
    lemma_id_index_oob(s0, session.session_id@);
    assert forall|j: int| 0 <= j < s0.len() implies (#[trigger] s1[j]).session_id@
        != session.session_id@ by {
        assert(s1[j] == s0[j]);
        if s0[j].session_id@ == session.session_id@ {
            lemma_id_index_unique_bound(s0, session.session_id@, j);
        }
    }
    lemma_id_index_unique(s1, session.session_id@, s0.len() as int);
    assert(s1.remove(s0.len() as int) =~= s0);
}

} // verus!
