//! The hook's view of a hook payload and the identity it derives for each
//! delivery.
//!
//! Identity precedence: the payload's own `message_id` when it is not blank;
//! else an id synthesized from the session id, the hook kind, a hash of the
//! raw payload bytes and their size; else (no usable session id) no stable
//! identity, and the hook reports a degraded event instead.
use vstd::prelude::*;

use crate::event::{SessionId, TurnId};
use crate::text::{
    clone_opt_string, decimal, digit_char, default_hash, hash_bytes, hex_padded, is_blank, opt_text,
    push_char, push_decimal, push_hex_padded, push_str, trims_to_empty,
};
use crate::wire::{spec_wire_version, WireEvent, WireEventKind};

verus! {

/// The fields the hook reads from a hook payload; each may be absent.
#[derive(Debug, Clone, PartialEq, Eq)]
pub struct ClaudeHookPayload {
    /// The agent's own id for this event.
    pub message_id: Option<String>,
    /// The session id.
    pub session_id: Option<String>,
    /// Path of the transcript the agent is writing.
    pub transcript_path: Option<String>,
}

impl Default for ClaudeHookPayload {
    /// A payload with no fields.
    fn default() -> (p: Self)
        ensures
            p.message_id is None,
            p.session_id is None,
            p.transcript_path is None,
    {
        ClaudeHookPayload { message_id: None, session_id: None, transcript_path: None }
    }
}

/// Which hook fired.
#[derive(Debug, Clone, Copy, PartialEq, Eq)]
pub enum HookKind {
    Stop,
    Notification,
}

/// The command-line spelling of a hook kind.
#[derive(Debug, Clone, Copy, PartialEq, Eq)]
pub enum HookKindArg {
    Stop,
    Notification,
}

impl From<HookKindArg> for HookKind {
    fn from(arg: HookKindArg) -> (k: HookKind) {
        match arg {
            HookKindArg::Stop => HookKind::Stop,
            HookKindArg::Notification => HookKind::Notification,
        }
    }
}

impl vstd::std_specs::convert::FromSpecImpl<HookKindArg> for HookKind {
    open spec fn obeys_from_spec() -> bool {
        true
    }

    open spec fn from_spec(arg: HookKindArg) -> HookKind {
        match arg {
            HookKindArg::Stop => HookKind::Stop,
            HookKindArg::Notification => HookKind::Notification,
        }
    }
}

/// The lower-case label of a hook kind.
pub open spec fn label_of(kind: HookKind) -> Seq<char> {
    match kind {
        HookKind::Stop => "stop"@,
        HookKind::Notification => "notification"@,
    }
}

impl HookKind {
    /// The lower-case label of this hook kind: `stop` or `notification`.
    pub fn as_label(self) -> (s: &'static str)
        ensures
            s@ == label_of(self),
    {
        match self {
            HookKind::Stop => {
                proof {
                    reveal_strlit("stop");
                }
                "stop"
            },
            HookKind::Notification => {
                proof {
                    reveal_strlit("notification");
                }
                "notification"
            },
        }
    }
}

/// The content hash text of raw payload bytes: 16 lower-case hex digits.
pub open spec fn content_hash_text(raw: Seq<u8>) -> Seq<char> {
    hex_padded(default_hash(raw) as nat, 16)
}

/// A content-distinguishing hash of the raw payload bytes, as 16 lower-case
/// hexadecimal digits. Not cryptographic; the same bytes give the same text.
pub fn payload_content_hash(raw_payload: &[u8]) -> (s: String)
    ensures
        s@ == content_hash_text(raw_payload@),
{
    let mut s = String::new();
    push_hex_padded(&mut s, hash_bytes(raw_payload), 16);
    s
}

/// The identity derived for one delivery.
#[derive(Debug, Clone)]
pub enum EventIdentity {
    /// A stable id, from `message_id` or synthesized.
    Stable { event_id: String, session_id: SessionId, transcript_path: Option<String> },
    /// No stable id: the payload names no usable session.
    Undeterminable { reason: String },
}

/// The mathematical value of an [`EventIdentity`].
pub enum IdentityView {
    Stable { event_id: Seq<char>, session_id: Seq<char>, transcript_path: Option<Seq<char>> },
    Undeterminable { reason: Seq<char> },
}

impl View for EventIdentity {
    type V = IdentityView;

    open spec fn view(&self) -> IdentityView {
        match self {
            EventIdentity::Stable { event_id, session_id, transcript_path } => IdentityView::Stable {
                event_id: event_id@,
                session_id: session_id@,
                transcript_path: opt_text(*transcript_path),
            },
            EventIdentity::Undeterminable { reason } => IdentityView::Undeterminable {
                reason: reason@,
            },
        }
    }
}

/// The id synthesized for session `sid`, hook kind `kind` and raw payload
/// `raw`: `sid:label:hash:size:label`.
pub open spec fn synthesized_id(sid: Seq<char>, kind: HookKind, raw: Seq<u8>) -> Seq<char> {
    sid + ":"@ + label_of(kind) + ":"@ + content_hash_text(raw) + ":"@ + decimal(raw.len())
        + ":"@ + label_of(kind)
}

/// The identity precedence (see the module docs).
pub open spec fn derive_spec(p: ClaudeHookPayload, raw: Seq<u8>, kind: HookKind) -> IdentityView {
    if p.message_id matches Some(m) && !is_blank(m@) {
        IdentityView::Stable {
            event_id: p.message_id->0@,
            session_id: match p.session_id {
                Some(s) => s@,
                None => "unknown"@,
            },
            transcript_path: opt_text(p.transcript_path),
        }
    } else if p.session_id is None {
        IdentityView::Undeterminable { reason: "no session_id in payload"@ }
    } else if is_blank(p.session_id->0@) {
        IdentityView::Undeterminable { reason: "empty session_id in payload"@ }
    } else {
        IdentityView::Stable {
            event_id: synthesized_id(p.session_id->0@, kind, raw),
            session_id: p.session_id->0@,
            transcript_path: opt_text(p.transcript_path),
        }
    }
}

fn synthesize_id(session_id: &String, kind: HookKind, raw_payload: &[u8]) -> (s: String)
    ensures
        s@ == synthesized_id(session_id@, kind, raw_payload@),
{
    let label = kind.as_label();
    proof {
        reveal_strlit(":");
    }
    let mut s = session_id.clone();
    push_char(&mut s, ':');
    push_str(&mut s, label);
    push_char(&mut s, ':');
    push_hex_padded(&mut s, hash_bytes(raw_payload), 16);
    push_char(&mut s, ':');
    push_decimal(&mut s, raw_payload.len() as u64);
    push_char(&mut s, ':');
    push_str(&mut s, label);
    assert(s@ =~= synthesized_id(session_id@, kind, raw_payload@));
    s
}

/// Derive the identity of one delivery from the parsed payload, the raw
/// payload bytes it was parsed from, and the hook kind (see [`derive_spec`]).
pub fn derive_event(payload: &ClaudeHookPayload, raw_payload: &[u8], hook_kind: HookKind) -> (r:
    EventIdentity)
    ensures
        r@ == derive_spec(*payload, raw_payload@, hook_kind),
{
    match &payload.message_id {
        Some(message_id) => {
            if !trims_to_empty(message_id.as_str()) {
                let session_id = match &payload.session_id {
                    Some(s) => SessionId::from_string(s.clone()),
                    None => {
                        proof {
                            reveal_strlit("unknown");
                        }
                        SessionId::new("unknown")
                    },
                };
                return EventIdentity::Stable {
                    event_id: message_id.clone(),
                    session_id,
                    transcript_path: clone_opt_string(&payload.transcript_path),
                };
            }
        },
        None => {},
    }
    let session_id_str = match &payload.session_id {
        Some(s) => s,
        None => {
            proof {
                reveal_strlit("no session_id in payload");
            }
            return EventIdentity::Undeterminable { reason: "no session_id in payload".to_owned() };
        },
    };
    if trims_to_empty(session_id_str.as_str()) {
        proof {
            reveal_strlit("empty session_id in payload");
        }
        return EventIdentity::Undeterminable { reason: "empty session_id in payload".to_owned() };
    }
    let event_id = synthesize_id(session_id_str, hook_kind, raw_payload);
    EventIdentity::Stable {
        event_id,
        session_id: SessionId::from_string(session_id_str.clone()),
        transcript_path: clone_opt_string(&payload.transcript_path),
    }
}

/// An optional text kept only when it is not empty.
pub open spec fn non_empty(o: Option<Seq<char>>) -> Option<Seq<char>> {
    match o {
        Some(t) => if t.len() > 0 {
            Some(t)
        } else {
            None
        },
        None => None,
    }
}

/// An optional session id's text.
pub open spec fn opt_session_text(o: Option<SessionId>) -> Option<Seq<char>> {
    match o {
        Some(s) => Some(s@),
        None => None,
    }
}

/// Whether `e` is the envelope built for a delivery: a stable identity of a
/// stop hook becomes a turn completion with the id as turn id; of a
/// notification hook, an attention hint keyed by the id whose raw kind is the
/// hook label; both carry the transcript path when it is not empty. No
/// stable identity becomes a degraded event with the reason and the payload's
/// session id when it is not empty. The envelope has the current version.
pub open spec fn is_built_event(
    e: WireEvent,
    p: ClaudeHookPayload,
    raw: Seq<u8>,
    kind: HookKind,
) -> bool {
    &&& e.schema_version == spec_wire_version()
    &&& match derive_spec(p, raw, kind) {
        IdentityView::Stable { event_id, session_id, transcript_path } => match kind {
            HookKind::Stop => e.kind matches WireEventKind::TurnComplete {
                session_id: s,
                turn_id: t,
                transcript_path: tp,
            } && s@ == session_id && t@ == event_id && opt_text(tp) == non_empty(transcript_path),
            HookKind::Notification => e.kind matches WireEventKind::AttentionHint {
                session_id: s,
                event_id: id,
                raw_kind: rk,
                transcript_path: tp,
            } && s@ == session_id && id@ == event_id && rk@ == label_of(kind) && opt_text(tp)
                == non_empty(transcript_path),
        },
        IdentityView::Undeterminable { reason } => e.kind matches WireEventKind::HookDegraded {
            reason: r,
            session_id: s,
        } && r@ == reason && opt_session_text(s) == non_empty(opt_text(p.session_id)),
    }
}

fn keep_non_empty(o: Option<String>) -> (r: Option<String>)
    ensures
        opt_text(r) == non_empty(opt_text(o)),
{
    match o {
        Some(t) => if t.as_str().is_empty() {
            None
        } else {
            Some(t)
        },
        None => None,
    }
}

/// Build the envelope to deliver for a hook firing (see [`is_built_event`]).
pub fn build_event(payload: &ClaudeHookPayload, raw_payload: &[u8], hook_kind: HookKind) -> (e:
    WireEvent)
    ensures
        is_built_event(e, *payload, raw_payload@, hook_kind),
{
    match derive_event(payload, raw_payload, hook_kind) {
        EventIdentity::Stable { event_id, session_id, transcript_path } => {
            let normalized_path = keep_non_empty(transcript_path);
            match hook_kind {
                HookKind::Stop => WireEvent::new(
                    WireEventKind::TurnComplete {
                        session_id,
                        turn_id: TurnId::from_string(event_id),
                        transcript_path: normalized_path,
                    },
                ),
                HookKind::Notification => WireEvent::new(
                    WireEventKind::AttentionHint {
                        session_id,
                        event_id,
                        raw_kind: hook_kind.as_label().to_owned(),
                        transcript_path: normalized_path,
                    },
                ),
            }
        },
        EventIdentity::Undeterminable { reason } => {
            let session_id = match keep_non_empty(clone_opt_string(&payload.session_id)) {
                Some(s) => Some(SessionId::from_string(s)),
                None => None,
            };
            WireEvent::new(WireEventKind::HookDegraded { reason, session_id })
        },
    }
}

/// Envelope law: a hook firing whose payload gives a usable identity (a
/// non-blank `message_id` or a non-blank session id) forwards the payload's
/// transcript path, when it is not empty, so that the daemon can read the
/// transcript: a Stop hook as a turn completion, a Notification hook as an
/// attention hint, each keyed by the payload's `message_id` when it has a
/// non-blank one.
pub proof fn lemma_built_event_forwards_path(
    e: WireEvent,
    p: ClaudeHookPayload,
    raw: Seq<u8>,
    kind: HookKind,
)
    requires
        is_built_event(e, p, raw, kind),
        (p.message_id matches Some(m) && !is_blank(m@)) || (p.session_id matches Some(s)
            && !is_blank(s@)),
    ensures
        ({
            let path = if p.transcript_path matches Some(t) && t@.len() > 0 {
                Some(p.transcript_path->0@)
            } else {
                None
            };
            &&& kind == HookKind::Stop ==> (e.kind matches WireEventKind::TurnComplete {
                transcript_path: tp,
                ..
            } && opt_text(tp) == path)
            &&& kind == HookKind::Notification ==> (e.kind matches WireEventKind::AttentionHint {
                transcript_path: tp,
                ..
            } && opt_text(tp) == path)
        }),
        p.message_id matches Some(m) && !is_blank(m@) ==> ({
            &&& e.kind matches WireEventKind::TurnComplete { turn_id, .. } ==> turn_id@
                == p.message_id->0@
            &&& e.kind matches WireEventKind::AttentionHint { event_id, .. } ==> event_id@
                == p.message_id->0@
        }),
        e.schema_version == 1,
{
}

/// Envelope law: without a non-blank `message_id`, a payload with a
/// non-blank session id is keyed by the id
/// `session:label:hash:size:label`, where the label is `stop` or
/// `notification`, the hash is the 16-digit hex content hash of the raw bytes
/// and the size their count; the envelope names that session. A payload with
/// neither gives a degraded event naming the payload's session id when it is
/// not empty.
pub proof fn lemma_built_event_identity(
    e: WireEvent,
    p: ClaudeHookPayload,
    raw: Seq<u8>,
    kind: HookKind,
)
    requires
        is_built_event(e, p, raw, kind),
        !(p.message_id matches Some(m) && !is_blank(m@)),
    ensures
        (p.session_id matches Some(s) && !is_blank(s@)) ==> ({
            let label = if kind == HookKind::Stop {
                "stop"@
            } else {
                "notification"@
            };
            let id = p.session_id->0@ + ":"@ + label + ":"@ + hex_padded(default_hash(raw) as nat, 16)
                + ":"@ + decimal(raw.len()) + ":"@ + label;
            &&& e.kind matches WireEventKind::TurnComplete { session_id, turn_id, .. } ==> turn_id@
                == id && session_id@ == p.session_id->0@
            &&& e.kind matches WireEventKind::AttentionHint { session_id, event_id, .. }
                ==> event_id@ == id && session_id@ == p.session_id->0@
            &&& !(e.kind is HookDegraded)
        }),
        !(p.session_id matches Some(s) && !is_blank(s@)) ==> (e.kind matches WireEventKind::HookDegraded {
            session_id: sid,
            ..
        } && opt_session_text(sid) == (if p.session_id matches Some(s) && s@.len() > 0 {
            Some(p.session_id->0@)
        } else {
            None
        })),
{
}

/// Identity law: a payload's own non-blank `message_id` is the event id,
/// whatever the hook kind and raw bytes.
pub proof fn lemma_message_id_preferred(p: ClaudeHookPayload, raw: Seq<u8>, kind: HookKind)
    requires
        p.message_id matches Some(m) && !is_blank(m@),
    ensures
        derive_spec(p, raw, kind) matches IdentityView::Stable { event_id, .. } && event_id
            == p.message_id->0@,
{
}

/// Identity law: a payload with no non-blank `message_id` and no non-blank
/// session id has no stable identity.
pub proof fn lemma_no_session_undeterminable(p: ClaudeHookPayload, raw: Seq<u8>, kind: HookKind)
    requires
        !(p.message_id matches Some(m) && !is_blank(m@)),
        p.session_id is None || is_blank(p.session_id->0@),
    ensures
        derive_spec(p, raw, kind) is Undeterminable,
{
}

/// Identity law: the content hash, and so the synthesized id, depends on the
/// raw payload bytes alone: equal bytes give equal hash text and equal ids.
pub proof fn lemma_content_hash_deterministic(sid: Seq<char>, kind: HookKind, a: Seq<u8>, b: Seq<u8>)
    requires
        a == b,
    ensures
        content_hash_text(a) == content_hash_text(b),
        synthesized_id(sid, kind, a) == synthesized_id(sid, kind, b),
{
}

proof fn lemma_decimal_injective(a: nat, b: nat)
    requires
        decimal(a) == decimal(b),
    ensures
        a == b,
    decreases a,
{
    if a >= 10 && b >= 10 {
        let da = decimal(a / 10);
        let db = decimal(b / 10);
        assert(decimal(a).drop_last() == da);
        assert(decimal(b).drop_last() == db);
        lemma_decimal_injective(a / 10, b / 10);
        assert(decimal(a).last() == digit_char(a % 10));
        assert(decimal(b).last() == digit_char(b % 10));
        assert(a % 10 == b % 10);
        assert(a == 10 * (a / 10) + a % 10);
        assert(b == 10 * (b / 10) + b % 10);
    } else if a < 10 && b >= 10 {
        lemma_decimal_len(b / 10);
        assert(decimal(b).len() >= 2);
    } else if a >= 10 && b < 10 {
        lemma_decimal_len(a / 10);
        assert(decimal(a).len() >= 2);
    } else {
        assert(decimal(a)[0] == digit_char(a));
        assert(decimal(b)[0] == digit_char(b));
    }
}

proof fn lemma_decimal_len(n: nat)
    ensures
        decimal(n).len() >= 1,
    decreases n,
{
    if n >= 10 {
        lemma_decimal_len(n / 10);
    }
}

proof fn lemma_hex_len(n: nat, w: nat)
    ensures
        hex_padded(n, w).len() == w,
    decreases w,
{
    if w > 0 {
        lemma_hex_len(n / 16, (w - 1) as nat);
    }
}

/// `16^w`.
pub open spec fn pow16(w: nat) -> nat
    decreases w,
{
    if w == 0 {
        1
    } else {
        16 * pow16((w - 1) as nat)
    }
}

proof fn lemma_hex_injective(a: nat, b: nat, w: nat)
    requires
        a < pow16(w),
        b < pow16(w),
        hex_padded(a, w) == hex_padded(b, w),
    ensures
        a == b,
    decreases w,
{
    if w > 0 {
        let p = pow16((w - 1) as nat);
        assert(hex_padded(a, w).drop_last() == hex_padded(a / 16, (w - 1) as nat));
        assert(hex_padded(b, w).drop_last() == hex_padded(b / 16, (w - 1) as nat));
        assert(a / 16 < p) by (nonlinear_arith)
            requires
                a < 16 * p,
        ;
        assert(b / 16 < p) by (nonlinear_arith)
            requires
                b < 16 * p,
        ;
        lemma_hex_injective(a / 16, b / 16, (w - 1) as nat);
        assert(hex_padded(a, w).last() == digit_char(a % 16));
        assert(hex_padded(b, w).last() == digit_char(b % 16));
        assert(a % 16 == b % 16);
        assert(a == 16 * (a / 16) + a % 16);
        assert(b == 16 * (b / 16) + b % 16);
    }
}

/// Identity law: for one session and hook kind, raw payloads whose content
/// hashes differ get different synthesized ids, whatever their sizes.
pub proof fn lemma_synthesized_ids_split_hashes(
    sid: Seq<char>,
    kind: HookKind,
    a: Seq<u8>,
    b: Seq<u8>,
)
    requires
        default_hash(a) != default_hash(b),
    ensures
        synthesized_id(sid, kind, a) != synthesized_id(sid, kind, b),
{
    reveal_strlit(":");
    if synthesized_id(sid, kind, a) == synthesized_id(sid, kind, b) {
        let head = sid + ":"@ + label_of(kind) + ":"@;
        let ha = content_hash_text(a);
        let hb = content_hash_text(b);
        lemma_hex_len(default_hash(a) as nat, 16);
        lemma_hex_len(default_hash(b) as nat, 16);
        let ia = synthesized_id(sid, kind, a);
        let ib = synthesized_id(sid, kind, b);
        let rest_a = ":"@ + decimal(a.len()) + ":"@ + label_of(kind);
        let rest_b = ":"@ + decimal(b.len()) + ":"@ + label_of(kind);
        assert(ia =~= head + ha + rest_a);
        assert(ib =~= head + hb + rest_b);
        let start: int = head.len() as int;
        assert(ia.subrange(start, start + 16) =~= ha);
        assert(ib.subrange(start, start + 16) =~= hb);
        reveal_with_fuel(pow16, 17);
        assert(pow16(16) == 18446744073709551616nat);
        lemma_hex_injective(default_hash(a) as nat, default_hash(b) as nat, 16);
    }
}

/// Identity law: for one session and hook kind, synthesized ids of raw
/// payloads of different sizes never collide.
pub proof fn lemma_synthesized_ids_split_sizes(
    sid: Seq<char>,
    kind: HookKind,
    a: Seq<u8>,
    b: Seq<u8>,
)
    requires
        a.len() != b.len(),
    ensures
        synthesized_id(sid, kind, a) != synthesized_id(sid, kind, b),
{
    reveal_strlit(":");
    if synthesized_id(sid, kind, a) == synthesized_id(sid, kind, b) {
        let head = sid + ":"@ + label_of(kind) + ":"@;
        let tail = ":"@ + label_of(kind);
        lemma_hex_len(default_hash(a) as nat, 16);
        lemma_hex_len(default_hash(b) as nat, 16);
        let ia = synthesized_id(sid, kind, a);
        let ib = synthesized_id(sid, kind, b);
        let start: int = head.len() as int + 17;
        assert(ia.len() == ib.len());
        let da = decimal(a.len());
        let db = decimal(b.len());
        let ha = head + content_hash_text(a) + ":"@;
        let hb = head + content_hash_text(b) + ":"@;
        assert(ha.len() == start && hb.len() == start);
        assert(ia == ha + da + tail);
        assert(ib == hb + db + tail);
        assert(ia.subrange(start, ia.len() - tail.len()) =~= da);
        assert(ib.subrange(start, ib.len() - tail.len()) =~= db);
        lemma_decimal_injective(a.len(), b.len());
    }
}

} // verus!
