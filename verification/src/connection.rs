//! Decisions of the daemon's per-connection handler: the schema-version gate,
//! whether a recorded event asks for a transcript read, and which
//! degraded-mode marker a read outcome or a degraded event calls for.
use vstd::prelude::*;

use crate::daemon_error::DaemonError;
use crate::event::SessionId;
use crate::session::{event_session, record_spec, DedupVerdict, SessionManager, SessionStateView};
use crate::source::{ProbeOutcome, ReadVerdict, TurnRead};
use crate::text::opt_text;
use crate::wire::{spec_wire_version, wire_version, WireEvent, WireEventKind};

verus! {

/// Accept only envelopes at the daemon's schema version.
pub fn check_schema_version(envelope: u16) -> (r: Result<(), DaemonError>)
    ensures
        r is Ok <==> envelope == spec_wire_version(),
        r matches Err(e) ==> e == (DaemonError::SchemaVersion {
            envelope,
            daemon: spec_wire_version(),
        }),
{
    let daemon = wire_version();
    if envelope != daemon {
        Err(DaemonError::SchemaVersion { envelope, daemon })
    } else {
        Ok(())
    }
}

/// The transcript a recorded event asks to read: the non-empty transcript
/// path of a turn completion that was new. Duplicates, attention hints and
/// degraded events read nothing.
pub fn transcript_to_read(event: &WireEvent, verdict: DedupVerdict) -> (r: Option<&String>)
    ensures
        r is Some <==> (verdict == DedupVerdict::New && (event.kind matches WireEventKind::TurnComplete {
            transcript_path: Some(p),
            ..
        } && p@.len() > 0)),
        r matches Some(p) ==> event.kind matches WireEventKind::TurnComplete {
            transcript_path: Some(q),
            ..
        } && *p == q,
{
    match verdict {
        DedupVerdict::Duplicate => None,
        DedupVerdict::New => match &event.kind {
            WireEventKind::TurnComplete { transcript_path, .. } => match transcript_path {
                Some(p) => if p.as_str().is_empty() {
                    None
                } else {
                    Some(p)
                },
                None => None,
            },
            _ => None,
        },
    }
}

/// The marker reason for a truncated read.
pub open spec fn truncated_marker() -> Seq<char> {
    "truncated transcript (size regression)"@
}

/// The degraded-mode marker a read outcome calls for: a drift writes its
/// detail; a truncated read writes the truncation reason; a settled read of
/// a matching transcript writes nothing.
pub fn read_outcome_marker(probe: &ProbeOutcome, read: &TurnRead) -> (r: Option<String>)
    ensures
        probe matches ProbeOutcome::Drift { detail } ==> (r matches Some(m) && m@ == detail@),
        probe is Matched && read.verdict == ReadVerdict::Truncated ==> (r matches Some(m) && m@
            == truncated_marker()),
        probe is Matched && read.verdict != ReadVerdict::Truncated ==> r is None,
{
    match probe {
        ProbeOutcome::Drift { detail } => Some(detail.clone()),
        ProbeOutcome::Matched => match read.verdict {
            ReadVerdict::Truncated => {
                proof {
                    reveal_strlit("truncated transcript (size regression)");
                }
                Some("truncated transcript (size regression)".to_owned())
            },
            _ => None,
        },
    }
}

/// The degraded-mode marker an incoming event calls for: the reason of a
/// degraded event; nothing for any other event.
pub fn event_marker(event: &WireEvent) -> (r: Option<&String>)
    ensures
        r is Some <==> event.kind is HookDegraded,
        r matches Some(m) ==> event.kind matches WireEventKind::HookDegraded { reason, .. } && *m
            == reason,
{
    match &event.kind {
        WireEventKind::HookDegraded { reason, .. } => Some(reason),
        _ => None,
    }
}

/// The degraded-mode reason an event carries: that of a degraded event.
pub open spec fn event_marker_spec(event: WireEvent) -> Option<Seq<char>> {
    match event.kind {
        WireEventKind::HookDegraded { reason, .. } => Some(reason@),
        _ => None,
    }
}

/// The transcript a recorded event asks to read (see [`transcript_to_read`]).
pub open spec fn read_request(event: WireEvent, verdict: DedupVerdict) -> Option<Seq<char>> {
    match event.kind {
        WireEventKind::TurnComplete { transcript_path: Some(p), .. } => if verdict
            == DedupVerdict::New && p@.len() > 0 {
            Some(p@)
        } else {
            None
        },
        _ => None,
    }
}

/// Read law: an admitted event asks for a transcript read only when it is a
/// new turn completion naming a non-empty transcript path, and then it is
/// that path. Attention hints, degraded events and duplicates read nothing.
pub proof fn lemma_read_only_new_turns(event: WireEvent, verdict: DedupVerdict)
    ensures
        read_request(event, verdict) is Some <==> (verdict == DedupVerdict::New && (
        event.kind matches WireEventKind::TurnComplete { transcript_path: Some(p), .. }
            && p@.len() > 0)),
        read_request(event, verdict) matches Some(t) ==> event.kind matches WireEventKind::TurnComplete {
            transcript_path: Some(p),
            ..
        } && t == p@,
        !(event.kind is TurnComplete) ==> read_request(event, verdict) is None,
{
}

/// What the handler does with an admitted event.
#[derive(Debug)]
pub struct Admission {
    /// Whether the event was new for its session.
    pub verdict: DedupVerdict,
    /// The degraded-mode marker the event itself calls for.
    pub marker: Option<String>,
    /// The transcript to read, for a new turn completion naming one.
    pub read_path: Option<String>,
    /// Where the previous read of the event's session stopped, when a
    /// transcript is to be read.
    pub last_read_offset: Option<u64>,
}

/// Admit one decoded event: reject a foreign schema version before anything
/// is recorded; otherwise record the event against its session, and say
/// which marker it calls for, whether a transcript is to be read, and where
/// the session's previous read stopped.
pub fn admit_event(sessions: &mut SessionManager, event: &WireEvent) -> (r: Result<
    Admission,
    DaemonError,
>)
    ensures
        event.schema_version != spec_wire_version() ==> (r matches Err(e) && e
            == (DaemonError::SchemaVersion {
            envelope: event.schema_version,
            daemon: spec_wire_version(),
        })) && final(sessions)@ == old(sessions)@,
        event.schema_version == spec_wire_version() ==> r is Ok,
        r matches Ok(a) ==> ({
            let (m, v) = record_spec(old(sessions)@, *event);
            let sid = event_session(*event)->0;
            &&& final(sessions)@ == m
            &&& a.verdict == v
            &&& opt_text(a.marker) == event_marker_spec(*event)
            &&& opt_text(a.read_path) == read_request(*event, v)
            &&& a.last_read_offset == (if a.read_path is Some && m.contains_key(sid) {
                m[sid].last_read_offset
            } else {
                None
            })
        }),
{
    check_schema_version(event.schema_version)?;
    let verdict = sessions.record(event);
    let marker = match event_marker(event) {
        Some(reason) => Some(reason.clone()),
        None => None,
    };
    let read_path = match transcript_to_read(event, verdict) {
        Some(p) => Some(p.clone()),
        None => None,
    };
    let mut last_read_offset: Option<u64> = None;
    if read_path.is_some() {
        match &event.kind {
            WireEventKind::TurnComplete { session_id, .. } => {
                match sessions.get(session_id) {
                    Some(state) => {
                        last_read_offset = state.last_read_offset;
                    },
                    None => {},
                }
            },
            _ => {},
        }
    }
    Ok(Admission { verdict, marker, read_path, last_read_offset })
}

/// Finish a successful transcript read for a session: store the offset the
/// read reached (for a tracked session) and return the degraded-mode marker
/// the outcome calls for (see [`read_outcome_marker`]).
pub fn finish_read(
    sessions: &mut SessionManager,
    session_id: &SessionId,
    probe: &ProbeOutcome,
    read: &TurnRead,
) -> (marker: Option<String>)
    ensures
        old(sessions)@.contains_key(session_id@) ==> final(sessions)@ == old(sessions)@.insert(
            session_id@,
            SessionStateView {
                last_read_offset: Some(read.read_offset),
                ..old(sessions)@[session_id@]
            },
        ),
        !old(sessions)@.contains_key(session_id@) ==> final(sessions)@ == old(sessions)@,
        probe matches ProbeOutcome::Drift { detail } ==> (marker matches Some(m) && m@
            == detail@),
        probe is Matched && read.verdict == ReadVerdict::Truncated ==> (marker matches Some(m)
            && m@ == truncated_marker()),
        probe is Matched && read.verdict != ReadVerdict::Truncated ==> marker is None,
{
    sessions.record_read_offset(session_id, read.read_offset);
    read_outcome_marker(probe, read)
}

} // verus!
