//! The daemon's per-session bookkeeping and idempotent dedup.
//!
//! Sessions are keyed by session id. Each holds the last transcript path seen,
//! the last event id acknowledged (the dedup key), a receipt counter, and the
//! transcript offset the reader last consumed. An event whose id equals its
//! session's last event id is a duplicate: acknowledged, not re-processed.
//! Dedup is per session: two sessions may each see the same event id.
use vstd::prelude::*;

use crate::event::SessionId;
use crate::text::{clone_opt_string, opt_text};
use crate::wire::{WireEvent, WireEventKind};

verus! {

/// Whether an incoming event was new for its session or a duplicate.
#[derive(Debug, Clone, Copy, PartialEq, Eq)]
pub enum DedupVerdict {
    /// First time this event id is seen for the session; it was recorded.
    New,
    /// The event id equals the session's last event id; nothing changed.
    Duplicate,
}

/// Per-session bookkeeping.
#[derive(Debug, Clone)]
pub struct SessionState {
    /// Last transcript path seen for the session.
    pub transcript_path: Option<String>,
    /// Last event id acknowledged for the session (the dedup key).
    pub last_event_id: Option<String>,
    /// Number of new events recorded for the session (saturating).
    pub receipt_seq: u64,
    /// Transcript offset the reader last consumed for the session.
    pub last_read_offset: Option<u64>,
}

/// The mathematical value of a [`SessionState`].
pub struct SessionStateView {
    pub transcript_path: Option<Seq<char>>,
    pub last_event_id: Option<Seq<char>>,
    pub receipt_seq: u64,
    pub last_read_offset: Option<u64>,
}

impl View for SessionState {
    type V = SessionStateView;

    open spec fn view(&self) -> SessionStateView {
        SessionStateView {
            transcript_path: opt_text(self.transcript_path),
            last_event_id: opt_text(self.last_event_id),
            receipt_seq: self.receipt_seq,
            last_read_offset: self.last_read_offset,
        }
    }
}

/// The state of a session that has recorded nothing yet.
pub open spec fn fresh_state() -> SessionStateView {
    SessionStateView {
        transcript_path: None,
        last_event_id: None,
        receipt_seq: 0,
        last_read_offset: None,
    }
}

impl Default for SessionState {
    /// A session that has recorded nothing yet.
    fn default() -> (s: Self)
        ensures
            s@ == fresh_state(),
    {
        SessionState {
            transcript_path: None,
            last_event_id: None,
            receipt_seq: 0,
            last_read_offset: None,
        }
    }
}

/// `n + 1`, held at `u64::MAX`.
pub open spec fn saturating_inc(n: u64) -> u64 {
    if n == u64::MAX {
        n
    } else {
        (n + 1) as u64
    }
}

/// The state of session `sid` in `m`, or the fresh state when it is untracked.
pub open spec fn state_or_fresh(
    m: Map<Seq<char>, SessionStateView>,
    sid: Seq<char>,
) -> SessionStateView {
    if m.contains_key(sid) {
        m[sid]
    } else {
        fresh_state()
    }
}

/// Dedup of event `eid` for session `sid`, with an optional transcript path:
/// a duplicate leaves `m` unchanged; a new event becomes the session's last
/// event id, replaces its transcript path when one is given, and advances its
/// receipt counter.
pub open spec fn dedup_step(
    m: Map<Seq<char>, SessionStateView>,
    sid: Seq<char>,
    eid: Seq<char>,
    path: Option<Seq<char>>,
) -> (Map<Seq<char>, SessionStateView>, DedupVerdict) {
    let st = state_or_fresh(m, sid);
    if st.last_event_id == Some(eid) {
        (m, DedupVerdict::Duplicate)
    } else {
        let next = SessionStateView {
            transcript_path: if path is Some {
                path
            } else {
                st.transcript_path
            },
            last_event_id: Some(eid),
            receipt_seq: saturating_inc(st.receipt_seq),
            last_read_offset: st.last_read_offset,
        };
        (m.insert(sid, next), DedupVerdict::New)
    }
}

/// The session an event belongs to, when it names one.
pub open spec fn event_session(event: WireEvent) -> Option<Seq<char>> {
    match event.kind {
        WireEventKind::TurnComplete { session_id, .. } => Some(session_id@),
        WireEventKind::AttentionHint { session_id, .. } => Some(session_id@),
        WireEventKind::HookDegraded { session_id, .. } => match session_id {
            Some(s) => Some(s@),
            None => None,
        },
    }
}

/// Recording `event` against the session map `m`: a turn completion dedups on
/// its turn id (its transcript path is not kept in the session), an attention
/// hint dedups on its event id and keeps its transcript path, and a degraded
/// event is always new and only makes sure its session, if any, is tracked.
pub open spec fn record_spec(m: Map<Seq<char>, SessionStateView>, event: WireEvent) -> (Map<
    Seq<char>,
    SessionStateView,
>, DedupVerdict) {
    match event.kind {
        WireEventKind::TurnComplete { session_id, turn_id, .. } => dedup_step(
            m,
            session_id@,
            turn_id@,
            None,
        ),
        WireEventKind::AttentionHint { session_id, event_id, transcript_path, .. } => dedup_step(
            m,
            session_id@,
            event_id@,
            opt_text(transcript_path),
        ),
        WireEventKind::HookDegraded { session_id, .. } => match session_id {
            Some(s) => if m.contains_key(s@) {
                (m, DedupVerdict::New)
            } else {
                (m.insert(s@, fresh_state()), DedupVerdict::New)
            },
            None => (m, DedupVerdict::New),
        },
    }
}

/// No two entries name the same session.
pub open spec fn keys_distinct(s: Seq<(SessionId, SessionState)>) -> bool {
    forall|i: int, j: int| 0 <= i < j < s.len() ==> #[trigger] s[i].0@ != #[trigger] s[j].0@
}

/// The session map the entries stand for.
pub open spec fn entries_map(s: Seq<(SessionId, SessionState)>) -> Map<
    Seq<char>,
    SessionStateView,
>
    decreases s.len(),
{
    if s.len() == 0 {
        Map::empty()
    } else {
        entries_map(s.drop_last()).insert(s.last().0@, s.last().1@)
    }
}

proof fn lemma_entries_absent(s: Seq<(SessionId, SessionState)>, k: Seq<char>)
    requires
        forall|i: int| 0 <= i < s.len() ==> #[trigger] s[i].0@ != k,
    ensures
        !entries_map(s).contains_key(k),
    decreases s.len(),
{
    if s.len() > 0 {
        assert(s.last().0@ != k);
        assert forall|i: int| 0 <= i < s.drop_last().len() implies #[trigger] s.drop_last()[i].0@
            != k by {
            assert(s.drop_last()[i] == s[i]);
        }
        lemma_entries_absent(s.drop_last(), k);
    }
}

proof fn lemma_entries_lookup(s: Seq<(SessionId, SessionState)>, i: int)
    requires
        keys_distinct(s),
        0 <= i < s.len(),
    ensures
        entries_map(s).contains_key(s[i].0@),
        entries_map(s)[s[i].0@] == s[i].1@,
    decreases s.len(),
{
    if i < s.len() - 1 {
        let d = s.drop_last();
        assert(d[i] == s[i]);
        assert(keys_distinct(d)) by {
            assert forall|a: int, b: int| 0 <= a < b < d.len() implies #[trigger] d[a].0@
                != #[trigger] d[b].0@ by {
                assert(d[a] == s[a] && d[b] == s[b]);
            }
        }
        lemma_entries_lookup(d, i);
        assert(s[i].0@ != s[s.len() - 1].0@);
    }
}

proof fn lemma_entries_finite_len(s: Seq<(SessionId, SessionState)>)
    requires
        keys_distinct(s),
    ensures
        entries_map(s).dom().finite(),
        entries_map(s).dom().len() == s.len(),
    decreases s.len(),
{
    if s.len() > 0 {
        let d = s.drop_last();
        assert(keys_distinct(d)) by {
            assert forall|a: int, b: int| 0 <= a < b < d.len() implies #[trigger] d[a].0@
                != #[trigger] d[b].0@ by {
                assert(d[a] == s[a] && d[b] == s[b]);
            }
        }
        lemma_entries_finite_len(d);
        assert forall|i: int| 0 <= i < d.len() implies #[trigger] d[i].0@ != s.last().0@ by {
            assert(d[i] == s[i]);
        }
        lemma_entries_absent(d, s.last().0@);
    }
}

proof fn lemma_entries_update(
    s: Seq<(SessionId, SessionState)>,
    i: int,
    e: (SessionId, SessionState),
)
    requires
        keys_distinct(s),
        0 <= i < s.len(),
        e.0@ == s[i].0@,
    ensures
        keys_distinct(s.update(i, e)),
        entries_map(s.update(i, e)) == entries_map(s).insert(e.0@, e.1@),
    decreases s.len(),
{
    let u = s.update(i, e);
    assert(keys_distinct(u)) by {
        assert forall|a: int, b: int| 0 <= a < b < u.len() implies #[trigger] u[a].0@
            != #[trigger] u[b].0@ by {
            assert(u[a].0@ == s[a].0@ && u[b].0@ == s[b].0@);
        }
    }
    let d = s.drop_last();
    assert(keys_distinct(d)) by {
        assert forall|a: int, b: int| 0 <= a < b < d.len() implies #[trigger] d[a].0@
            != #[trigger] d[b].0@ by {
            assert(d[a] == s[a] && d[b] == s[b]);
        }
    }
    if i == s.len() - 1 {
        assert(u.drop_last() =~= d);
        assert(entries_map(u) =~= entries_map(s).insert(e.0@, e.1@));
    } else {
        assert(u.drop_last() =~= d.update(i, e));
        lemma_entries_update(d, i, e);
        assert(s.last().0@ != e.0@);
        assert(u.last() == s.last());
        assert(entries_map(u) =~= entries_map(s).insert(e.0@, e.1@));
    }
}

proof fn lemma_entries_push(s: Seq<(SessionId, SessionState)>, e: (SessionId, SessionState))
    requires
        keys_distinct(s),
        forall|i: int| 0 <= i < s.len() ==> #[trigger] s[i].0@ != e.0@,
    ensures
        keys_distinct(s.push(e)),
        entries_map(s.push(e)) == entries_map(s).insert(e.0@, e.1@),
{
    let p = s.push(e);
    assert(p.drop_last() =~= s);
    assert(keys_distinct(p)) by {
        assert forall|a: int, b: int| 0 <= a < b < p.len() implies #[trigger] p[a].0@
            != #[trigger] p[b].0@ by {
            if b == s.len() {
                assert(p[a] == s[a]);
            } else {
                assert(p[a] == s[a] && p[b] == s[b]);
            }
        }
    }
}

/// The daemon's session multiplexer, keyed by session id.
#[derive(Debug)]
pub struct SessionManager {
    entries: Vec<(SessionId, SessionState)>,
}

impl View for SessionManager {
    type V = Map<Seq<char>, SessionStateView>;

    closed spec fn view(&self) -> Map<Seq<char>, SessionStateView> {
        entries_map(self.entries@)
    }
}

fn find_entry(entries: &Vec<(SessionId, SessionState)>, id: &SessionId) -> (r: Option<usize>)
    ensures
        r matches Some(i) ==> i < entries@.len() && entries@[i as int].0@ == id@,
        r is None ==> forall|i: int| 0 <= i < entries@.len() ==> #[trigger] entries@[i].0@ != id@,
{
    let mut i: usize = 0;
    while i < entries.len()
        invariant
            i <= entries@.len(),
            forall|j: int| 0 <= j < i ==> #[trigger] entries@[j].0@ != id@,
        decreases entries@.len() - i,
    {
        if entries[i].0.same_as(id) {
            return Some(i);
        }
        i = i + 1;
    }
    None
}

impl Default for SessionManager {
    /// An empty session manager.
    fn default() -> (m: Self)
        ensures
            m@ == Map::<Seq<char>, SessionStateView>::empty(),
    {
        SessionManager::new()
    }
}

impl SessionManager {
    #[verifier::type_invariant]
    spec fn wf(self) -> bool {
        keys_distinct(self.entries@)
    }

    /// An empty session manager.
    pub fn new() -> (m: Self)
        ensures
            m@ == Map::<Seq<char>, SessionStateView>::empty(),
    {
        SessionManager { entries: Vec::new() }
    }

    /// Number of tracked sessions.
    pub fn len(&self) -> (n: usize)
        ensures
            self@.dom().finite(),
            n == self@.dom().len(),
    {
        proof {
            use_type_invariant(self);
            lemma_entries_finite_len(self.entries@);
        }
        self.entries.len()
    }

    /// Whether no session is tracked.
    pub fn is_empty(&self) -> (b: bool)
        ensures
            b == (self@.dom() == Set::<Seq<char>>::empty()),
    {
        proof {
            use_type_invariant(self);
            lemma_entries_finite_len(self.entries@);
        }
        let n = self.entries.len();
        if n == 0 {
            assert(self@.dom() =~= Set::<Seq<char>>::empty());
        } else {
            assert(self@.dom().len() > 0);
        }
        n == 0
    }

    /// The state of a tracked session.
    pub fn get(&self, session_id: &SessionId) -> (r: Option<&SessionState>)
        ensures
            r is Some <==> self@.contains_key(session_id@),
            r matches Some(s) ==> s@ == self@[session_id@],
    {
        proof {
            use_type_invariant(self);
        }
        match find_entry(&self.entries, session_id) {
            Some(i) => {
                proof {
                    lemma_entries_lookup(self.entries@, i as int);
                }
                Some(&self.entries[i].1)
            },
            None => {
                proof {
                    lemma_entries_absent(self.entries@, session_id@);
                }
                None
            },
        }
    }

    /// Store the transcript offset the reader consumed up to for a tracked
    /// session. Returns whether the session is tracked; an untracked session
    /// is left untracked.
    pub fn record_read_offset(&mut self, session_id: &SessionId, offset: u64) -> (found: bool)
        ensures
            found == old(self)@.contains_key(session_id@),
            found ==> final(self)@ == old(self)@.insert(
                session_id@,
                SessionStateView { last_read_offset: Some(offset), ..old(self)@[session_id@] },
            ),
            !found ==> final(self)@ == old(self)@,
    {
        proof {
            use_type_invariant(&*self);
        }
        let mut entries: Vec<(SessionId, SessionState)> = Vec::new();
        std::mem::swap(&mut entries, &mut self.entries);
        let found = match find_entry(&entries, session_id) {
            Some(i) => {
                proof {
                    lemma_entries_lookup(entries@, i as int);
                }
                let old_state = &entries[i].1;
                let state = SessionState {
                    transcript_path: clone_opt_string(&old_state.transcript_path),
                    last_event_id: clone_opt_string(&old_state.last_event_id),
                    receipt_seq: old_state.receipt_seq,
                    last_read_offset: Some(offset),
                };
                let key = entries[i].0.clone();
                proof {
                    lemma_entries_update(entries@, i as int, (key, state));
                }
                entries.set(i, (key, state));
                true
            },
            None => {
                proof {
                    lemma_entries_absent(entries@, session_id@);
                }
                false
            },
        };
        self.entries = entries;
        found
    }

    /// Record an incoming event against its session and say whether it was
    /// new or a duplicate of the session's last event id (see [`record_spec`]).
    pub fn record(&mut self, event: &WireEvent) -> (verdict: DedupVerdict)
        ensures
            (final(self)@, verdict) == record_spec(old(self)@, *event),
    {
        match &event.kind {
            WireEventKind::TurnComplete { session_id, turn_id, .. } => {
                let event_id = turn_id.as_str().to_owned();
                self.record_dedup(session_id.clone(), event_id, None)
            },
            WireEventKind::AttentionHint { session_id, event_id, transcript_path, .. } => {
                self.record_dedup(
                    session_id.clone(),
                    event_id.clone(),
                    clone_opt_string(transcript_path),
                )
            },
            WireEventKind::HookDegraded { session_id, .. } => {
                match session_id {
                    Some(sid) => {
                        self.touch(sid);
                    },
                    None => {},
                }
                DedupVerdict::New
            },
        }
    }

    /// Make sure a session is tracked, adding it in the fresh state if not.
    fn touch(&mut self, session_id: &SessionId)
        ensures
            old(self)@.contains_key(session_id@) ==> final(self)@ == old(self)@,
            !old(self)@.contains_key(session_id@) ==> final(self)@ == old(self)@.insert(
                session_id@,
                fresh_state(),
            ),
    {
        proof {
            use_type_invariant(&*self);
        }
        let mut entries: Vec<(SessionId, SessionState)> = Vec::new();
        std::mem::swap(&mut entries, &mut self.entries);
        match find_entry(&entries, session_id) {
            Some(i) => {
                proof {
                    lemma_entries_lookup(entries@, i as int);
                }
            },
            None => {
                proof {
                    lemma_entries_absent(entries@, session_id@);
                }
                let e = (session_id.clone(), SessionState::default());
                proof {
                    lemma_entries_push(entries@, e);
                }
                entries.push(e);
            },
        }
        self.entries = entries;
    }

    /// Dedup `event_id` for `session_id` (see [`dedup_step`]).
    fn record_dedup(
        &mut self,
        session_id: SessionId,
        event_id: String,
        transcript_path: Option<String>,
    ) -> (verdict: DedupVerdict)
        ensures
            (final(self)@, verdict) == dedup_step(
                old(self)@,
                session_id@,
                event_id@,
                opt_text(transcript_path),
            ),
    {
        proof {
            use_type_invariant(&*self);
        }
        let ghost sid = session_id@;
        let ghost eid = event_id@;
        let ghost path = opt_text(transcript_path);
        let mut entries: Vec<(SessionId, SessionState)> = Vec::new();
        std::mem::swap(&mut entries, &mut self.entries);
        let ghost m = entries_map(entries@);
        match find_entry(&entries, &session_id) {
            Some(i) => {
                proof {
                    lemma_entries_lookup(entries@, i as int);
                }
                let old_state = &entries[i].1;
                let duplicate = match &old_state.last_event_id {
                    Some(last) => *last == event_id,
                    None => false,
                };
                if duplicate {
                    self.entries = entries;
                    return DedupVerdict::Duplicate;
                }
                let path_next = if transcript_path.is_some() {
                    transcript_path
                } else {
                    clone_opt_string(&old_state.transcript_path)
                };
                let state = SessionState {
                    transcript_path: path_next,
                    last_event_id: Some(event_id),
                    receipt_seq: old_state.receipt_seq.saturating_add(1),
                    last_read_offset: old_state.last_read_offset,
                };
                let key = entries[i].0.clone();
                proof {
                    lemma_entries_update(entries@, i as int, (key, state));
                }
                entries.set(i, (key, state));
            },
            None => {
                proof {
                    lemma_entries_absent(entries@, sid);
                }
                let state = SessionState {
                    transcript_path,
                    last_event_id: Some(event_id),
                    receipt_seq: 1,
                    last_read_offset: None,
                };
                let e = (session_id, state);
                proof {
                    lemma_entries_push(entries@, e);
                }
                entries.push(e);
            },
        }
        self.entries = entries;
        DedupVerdict::New
    }
}

/// Dedup law: recording the same turn completion or attention hint twice in a
/// row, the second recording is a duplicate and changes nothing.
pub proof fn lemma_retry_is_duplicate(m: Map<Seq<char>, SessionStateView>, event: WireEvent)
    requires
        !(event.kind is HookDegraded),
    ensures
        ({
            let (m1, _) = record_spec(m, event);
            let (m2, v2) = record_spec(m1, event);
            v2 == DedupVerdict::Duplicate && m2 == m1
        }),
{
}

/// Dedup law: a turn completion or attention hint is a duplicate exactly
/// when its id equals the last event id of its (tracked) session; any other
/// id, however much of it agrees with the last one, is new.
pub proof fn lemma_duplicate_iff_same_id(m: Map<Seq<char>, SessionStateView>, event: WireEvent)
    requires
        !(event.kind is HookDegraded),
    ensures
        ({
            let sid = event_session(event)->0;
            let eid = match event.kind {
                WireEventKind::TurnComplete { turn_id, .. } => turn_id@,
                WireEventKind::AttentionHint { event_id, .. } => event_id@,
                WireEventKind::HookDegraded { reason, .. } => reason@,
            };
            (record_spec(m, event).1 == DedupVerdict::Duplicate) <==> (m.contains_key(sid)
                && m[sid].last_event_id == Some(eid))
        }),
{
}

/// Dedup law: a new turn completion or attention hint leaves its session's
/// read offset as it was; an attention hint naming a transcript path makes it
/// the session's path, and otherwise the session keeps its path.
pub proof fn lemma_new_event_keeps_offset(m: Map<Seq<char>, SessionStateView>, event: WireEvent)
    requires
        !(event.kind is HookDegraded),
        record_spec(m, event).1 == DedupVerdict::New,
    ensures
        ({
            let sid = event_session(event)->0;
            let before = if m.contains_key(sid) {
                m[sid]
            } else {
                fresh_state()
            };
            let after = record_spec(m, event).0[sid];
            &&& after.last_read_offset == before.last_read_offset
            &&& (event.kind matches WireEventKind::AttentionHint { transcript_path: Some(p), .. })
                ==> after.transcript_path == Some(
                event.kind->AttentionHint_transcript_path->0@,
            )
            &&& !(event.kind matches WireEventKind::AttentionHint { transcript_path: Some(p), .. })
                ==> after.transcript_path == before.transcript_path
        }),
{
}

/// Dedup law: recording an event changes no session but its own.
pub proof fn lemma_other_sessions_untouched(
    m: Map<Seq<char>, SessionStateView>,
    event: WireEvent,
    other: Seq<char>,
)
    requires
        event_session(event) != Some(other),
    ensures
        ({
            let (m1, _) = record_spec(m, event);
            &&& m1.contains_key(other) == m.contains_key(other)
            &&& m.contains_key(other) ==> m1[other] == m[other]
        }),
{
}

/// Dedup law: a session's receipt counter advances by one (saturating) on a new
/// turn completion or attention hint and stays put on a duplicate; the event's
/// session is tracked afterwards either way.
pub proof fn lemma_receipt_counter(m: Map<Seq<char>, SessionStateView>, event: WireEvent)
    requires
        !(event.kind is HookDegraded),
    ensures
        ({
            let sid = event_session(event)->0;
            let (m1, v) = record_spec(m, event);
            &&& m1.contains_key(sid)
            &&& v == DedupVerdict::New ==> m1[sid].receipt_seq == saturating_inc(
                state_or_fresh(m, sid).receipt_seq,
            )
            &&& v == DedupVerdict::Duplicate ==> m1 == m
        }),
{
}

/// Dedup law: a degraded event is always new.
pub proof fn lemma_degraded_always_new(m: Map<Seq<char>, SessionStateView>, event: WireEvent)
    requires
        event.kind is HookDegraded,
    ensures
        record_spec(m, event).1 == DedupVerdict::New,
{
}

/// Dedup law: a new event becomes its session's last event id.
pub proof fn lemma_new_event_becomes_last(m: Map<Seq<char>, SessionStateView>, event: WireEvent)
    requires
        !(event.kind is HookDegraded),
        record_spec(m, event).1 == DedupVerdict::New,
    ensures
        ({
            let sid = event_session(event)->0;
            let m1 = record_spec(m, event).0;
            m1[sid].last_event_id == Some(
                match event.kind {
                    WireEventKind::TurnComplete { turn_id, .. } => turn_id@,
                    WireEventKind::AttentionHint { event_id, .. } => event_id@,
                    WireEventKind::HookDegraded { reason, .. } => reason@,
                },
            )
        }),
{
}

/// The session map after recording `events` in order, starting from `m`.
pub open spec fn record_all(
    m: Map<Seq<char>, SessionStateView>,
    events: Seq<WireEvent>,
) -> Map<Seq<char>, SessionStateView>
    decreases events.len(),
{
    if events.len() == 0 {
        m
    } else {
        record_spec(record_all(m, events.drop_last()), events.last()).0
    }
}

/// The sessions that `events` name.
pub open spec fn named_sessions(events: Seq<WireEvent>) -> Set<Seq<char>> {
    Set::new(
        |k: Seq<char>|
            exists|i: int| 0 <= i < events.len() && #[trigger] event_session(events[i]) == Some(k),
    )
}

proof fn lemma_record_dom(m: Map<Seq<char>, SessionStateView>, event: WireEvent)
    ensures
        record_spec(m, event).0.dom() == (match event_session(event) {
            Some(k) => m.dom().insert(k),
            None => m.dom(),
        }),
{
    let m1 = record_spec(m, event).0;
    match event_session(event) {
        Some(k) => {
            assert(m1.dom() =~= m.dom().insert(k));
        },
        None => {
            assert(m1.dom() =~= m.dom());
        },
    }
}

/// Session-count law: recording any sequence of events from `m` tracks
/// exactly the sessions `m` tracked plus those the events name (a degraded
/// event without a session names none); from an empty manager, the number
/// of tracked sessions is the number of distinct sessions named.
pub proof fn lemma_tracked_sessions(m: Map<Seq<char>, SessionStateView>, events: Seq<WireEvent>)
    ensures
        record_all(m, events).dom() == m.dom() + named_sessions(events),
        named_sessions(events).finite(),
        m.dom().finite() ==> record_all(m, events).dom().finite(),
        record_all(Map::empty(), events).dom().len() == named_sessions(events).len(),
    decreases events.len(),
{
    if events.len() == 0 {
        assert(named_sessions(events) =~= Set::empty());
        assert(m.dom() + named_sessions(events) =~= m.dom());
        assert(record_all(Map::<Seq<char>, SessionStateView>::empty(), events).dom() =~= named_sessions(
            events,
        ));
    } else {
        let d = events.drop_last();
        let e = events.last();
        lemma_tracked_sessions(m, d);
        lemma_tracked_sessions(Map::empty(), d);
        lemma_record_dom(record_all(m, d), e);
        lemma_record_dom(record_all(Map::empty(), d), e);
        let added: Set<Seq<char>> = match event_session(e) {
            Some(k) => set![k],
            None => Set::empty(),
        };
        assert(named_sessions(events) =~= named_sessions(d) + added) by {
            assert forall|k: Seq<char>| named_sessions(events).contains(k) implies (named_sessions(
                d,
            ) + added).contains(k) by {
                let i = choose|i: int|
                    0 <= i < events.len() && #[trigger] event_session(events[i]) == Some(k);
                if i < d.len() {
                    assert(d[i] == events[i]);
                }
            }
            assert forall|k: Seq<char>| (named_sessions(d) + added).contains(k) implies named_sessions(
                events,
            ).contains(k) by {
                if named_sessions(d).contains(k) {
                    let i = choose|i: int|
                        0 <= i < d.len() && #[trigger] event_session(d[i]) == Some(k);
                    assert(events[i] == d[i]);
                } else {
                    assert(event_session(events[events.len() - 1]) == Some(k));
                }
            }
        }
        assert(record_all(m, events).dom() =~= m.dom() + named_sessions(events));
        assert(record_all(Map::<Seq<char>, SessionStateView>::empty(), events).dom() =~= Set::<
            Seq<char>,
        >::empty() + named_sessions(events));
        assert(Set::<Seq<char>>::empty() + named_sessions(events) =~= named_sessions(events));
    }
}

} // verus!
