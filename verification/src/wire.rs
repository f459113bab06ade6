//! The hook → daemon wire envelope and its length-prefixed framing.
//!
//! A frame is a `u32` little-endian byte count followed by exactly that many
//! body bytes (the JSON encoding of a [`WireEvent`]). This module frames and
//! unframes bodies; turning a body into a [`WireEvent`] is a JSON concern.
use vstd::prelude::*;

use crate::buffer::{
    bytes_contents, bytes_mut_extend_from_slice, bytes_mut_freeze, bytes_mut_put_u32_le,
    bytes_mut_with_capacity, le_bytes, le_value, lemma_le_roundtrip, lemma_le_value_bounds,
    max_buffer_len, slice_get_u32_le,
};
use crate::event::{SessionId, TurnId};
use bytes::Bytes;

verus! {

/// The current wire-envelope schema version. Hook and daemon must agree on it.
pub fn wire_version() -> (v: u16)
    ensures
        v == spec_wire_version(),
{
    1
}

/// The current wire-envelope schema version, in specifications.
pub open spec fn spec_wire_version() -> u16 {
    1
}

/// Width of the length prefix in bytes.
pub const LEN_PREFIX_BYTES: usize = 4;

/// `serde_json::Error`, the error a JSON body decode reports.
#[verifier::external_type_specification]
#[verifier::external_body]
pub struct ExJsonError(serde_json::Error);

/// A wire-framing failure.
#[derive(Debug)]
pub enum WireError {
    /// Fewer than [`LEN_PREFIX_BYTES`] bytes are available.
    TruncatedPrefix { need: usize, have: usize },
    /// The length prefix announced more body bytes than are available.
    TruncatedBody { claimed: u32, have: usize },
    /// The body is not the JSON encoding of a [`WireEvent`].
    Json(serde_json::Error),
}

impl WireError {
    /// Whether this error reports a frame that ended early.
    pub fn is_truncation(&self) -> (b: bool)
        ensures
            b == (self is TruncatedPrefix || self is TruncatedBody),
    {
        match self {
            WireError::TruncatedPrefix { .. } => true,
            WireError::TruncatedBody { .. } => true,
            WireError::Json(_) => false,
        }
    }
}

/// Hook → daemon wire envelope.
#[derive(Debug, Clone, PartialEq, Eq)]
pub struct WireEvent {
    /// Envelope schema version; the daemon accepts only [`wire_version()`].
    pub schema_version: u16,
    /// Which event the hook is delivering.
    pub kind: WireEventKind,
}

/// What a [`WireEvent`] delivers.
#[derive(Debug, Clone, PartialEq, Eq)]
pub enum WireEventKind {
    /// A turn completed in `session_id`; the daemon reads the transcript at
    /// `transcript_path` when one is given.
    TurnComplete { session_id: SessionId, turn_id: TurnId, transcript_path: Option<String> },
    /// A notification fired in `session_id`; `event_id` is the dedup key and
    /// `raw_kind` the hook kind label.
    AttentionHint {
        session_id: SessionId,
        event_id: String,
        raw_kind: String,
        transcript_path: Option<String>,
    },
    /// The hook could not derive a stable event identity; `reason` says why.
    HookDegraded { reason: String, session_id: Option<SessionId> },
}

impl WireEvent {
    /// An envelope of `kind` at the current schema version.
    pub fn new(kind: WireEventKind) -> (e: Self)
        ensures
            e.schema_version == spec_wire_version(),
            e.kind == kind,
    {
        WireEvent { schema_version: wire_version(), kind }
    }

    /// The schema version a fresh envelope carries.
    pub fn schema_version_default() -> (v: u16)
        ensures
            v == spec_wire_version(),
    {
        wire_version()
    }

    /// A turn-complete envelope with the given schema version and no
    /// transcript path.
    pub fn for_turn_complete(session_id: SessionId, turn_id: TurnId, schema_version: u16) -> (e:
        Self)
        ensures
            e.schema_version == schema_version,
            e.kind == (WireEventKind::TurnComplete {
                session_id,
                turn_id,
                transcript_path: None,
            }),
    {
        WireEvent {
            schema_version,
            kind: WireEventKind::TurnComplete { session_id, turn_id, transcript_path: None },
        }
    }
}

/// The frame of `body`: the little-endian `u32` of its length, then `body`.
/// (A body longer than `u32::MAX` bytes gets its length cut to 32 bits.)
pub open spec fn frame_of(body: Seq<u8>) -> Seq<u8> {
    le_bytes(body.len() as u32) + body
}

/// The body length a frame's prefix announces.
pub open spec fn announced_len(frame: Seq<u8>) -> int {
    le_value(frame)
}

/// Whether `bytes` starts with a whole frame.
pub open spec fn holds_whole_frame(bytes: Seq<u8>) -> bool {
    bytes.len() >= LEN_PREFIX_BYTES && bytes.len() >= LEN_PREFIX_BYTES + announced_len(bytes)
}

/// Frame `body`: its length as a little-endian `u32`, then the body bytes.
pub fn encode_frame(body: &[u8]) -> (frame: Bytes)
    requires
        body@.len() + LEN_PREFIX_BYTES <= max_buffer_len(),
    ensures
        bytes_contents(frame) == frame_of(body@),
{
    let mut buf = bytes_mut_with_capacity(LEN_PREFIX_BYTES + body.len());
    bytes_mut_put_u32_le(&mut buf, body.len() as u32);
    bytes_mut_extend_from_slice(&mut buf, body);
    bytes_mut_freeze(buf)
}

/// Split the first frame off `bytes`: its body and the number of bytes the
/// frame takes (prefix plus body). The bytes after it are left for the next
/// frame.
pub fn decode_frame(bytes: &[u8]) -> (r: Result<(&[u8], usize), WireError>)
    ensures
        (r matches Err(WireError::TruncatedPrefix { need, have })) <==> bytes@.len()
            < LEN_PREFIX_BYTES,
        r matches Err(WireError::TruncatedPrefix { need, have }) ==> need == LEN_PREFIX_BYTES
            && have == bytes@.len(),
        (r matches Err(WireError::TruncatedBody { claimed, have })) <==> (bytes@.len()
            >= LEN_PREFIX_BYTES && !holds_whole_frame(bytes@)),
        r matches Err(WireError::TruncatedBody { claimed, have }) ==> claimed == announced_len(
            bytes@,
        ) && have == bytes@.len() - LEN_PREFIX_BYTES,
        r is Ok <==> holds_whole_frame(bytes@),
        r matches Ok((body, consumed)) ==> consumed == LEN_PREFIX_BYTES + announced_len(bytes@)
            && body@ == bytes@.subrange(LEN_PREFIX_BYTES as int, consumed as int),
        !(r matches Err(WireError::Json(_))),
{
    if bytes.len() < LEN_PREFIX_BYTES {
        return Err(WireError::TruncatedPrefix { need: LEN_PREFIX_BYTES, have: bytes.len() });
    }
    let body_len = slice_get_u32_le(bytes);
    proof {
        lemma_le_value_bounds(bytes@);
    }
    let available = bytes.len() - LEN_PREFIX_BYTES;
    if (available as u64) < (body_len as u64) {
        return Err(WireError::TruncatedBody { claimed: body_len, have: available });
    }
    let body_end = LEN_PREFIX_BYTES + body_len as usize;
    let body = &bytes[LEN_PREFIX_BYTES..body_end];
    Ok((body, body_end))
}

/// Framing law: the frame of a body of at most `u32::MAX` bytes, followed by
/// any further bytes, holds a whole frame whose body is that body and which
/// takes exactly the prefix plus the body; its prefix is the body length.
pub proof fn lemma_frame_roundtrip(body: Seq<u8>, rest: Seq<u8>)
    requires
        body.len() <= u32::MAX,
    ensures
        ({
            let bytes = frame_of(body) + rest;
            &&& holds_whole_frame(bytes)
            &&& announced_len(bytes) == body.len()
            &&& bytes.subrange(LEN_PREFIX_BYTES as int, LEN_PREFIX_BYTES + body.len()) == body
        }),
{
    let n = body.len() as u32;
    lemma_le_roundtrip(n);
    let bytes = frame_of(body) + rest;
    assert(bytes.subrange(0, 4) == le_bytes(n));
    assert(le_value(bytes) == le_value(le_bytes(n)));
    assert(bytes.subrange(LEN_PREFIX_BYTES as int, LEN_PREFIX_BYTES + body.len()) =~= body);
}

/// Framing law: a frame is exactly as long as its body plus the prefix.
pub proof fn lemma_frame_len(body: Seq<u8>)
    ensures
        frame_of(body).len() == LEN_PREFIX_BYTES + body.len(),
{
}

} // verus!
