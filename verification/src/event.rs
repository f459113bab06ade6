//! Source-neutral domain vocabulary: session and turn identifiers, content
//! segments, attention signals, and the events a transcript source emits.
use vstd::prelude::*;

verus! {

/// Identifier of one agent session, as the hook supplied it.
#[derive(Debug, PartialEq, Eq, Hash)]
pub struct SessionId(String);

impl View for SessionId {
    type V = Seq<char>;

    closed spec fn view(&self) -> Seq<char> {
        self.0@
    }
}

impl Clone for SessionId {
    fn clone(&self) -> (r: Self)
        ensures
            r@ == self@,
    {
        SessionId(self.0.clone())
    }
}

impl SessionId {
    /// A session id holding `id`.
    pub fn new(id: &str) -> (r: Self)
        ensures
            r@ == id@,
    {
        SessionId(id.to_owned())
    }

    /// A session id taking ownership of `id`.
    pub fn from_string(id: String) -> (r: Self)
        ensures
            r@ == id@,
    {
        SessionId(id)
    }

    /// The id's text.
    pub fn as_str(&self) -> (s: &str)
        ensures
            s@ == self@,
    {
        self.0.as_str()
    }

    /// Whether two session ids hold the same text.
    pub fn same_as(&self, other: &SessionId) -> (b: bool)
        ensures
            b == (self@ == other@),
    {
        self.0 == other.0
    }
}

impl From<SessionId> for String {
    fn from(id: SessionId) -> (s: String) {
        id.0
    }
}

impl vstd::std_specs::convert::FromSpecImpl<SessionId> for String {
    open spec fn obeys_from_spec() -> bool {
        true
    }

    open spec fn from_spec(id: SessionId) -> String {
        session_id_text(id)
    }
}

/// The `String` a session id wraps.
pub closed spec fn session_id_text(id: SessionId) -> String {
    id.0
}

/// The wrapped `String` of a session id has the id's text.
pub proof fn lemma_session_id_text(id: SessionId)
    ensures
        session_id_text(id)@ == id@,
{
}

/// Identifier of one turn within a session.
#[derive(Debug, PartialEq, Eq, Hash)]
pub struct TurnId(String);

impl View for TurnId {
    type V = Seq<char>;

    closed spec fn view(&self) -> Seq<char> {
        self.0@
    }
}

impl Clone for TurnId {
    fn clone(&self) -> (r: Self)
        ensures
            r@ == self@,
    {
        TurnId(self.0.clone())
    }
}

impl TurnId {
    /// A turn id holding `id`.
    pub fn new(id: &str) -> (r: Self)
        ensures
            r@ == id@,
    {
        TurnId(id.to_owned())
    }

    /// A turn id taking ownership of `id`.
    pub fn from_string(id: String) -> (r: Self)
        ensures
            r@ == id@,
    {
        TurnId(id)
    }

    /// The id's text.
    pub fn as_str(&self) -> (s: &str)
        ensures
            s@ == self@,
    {
        self.0.as_str()
    }
}

/// Speaker role of a segment or utterance.
#[derive(Debug, Clone, Copy, PartialEq, Eq, Hash)]
pub enum Role {
    /// The agent produced this content.
    Assistant,
    /// The operator produced this content.
    User,
    /// A system message (tool result, environment, ...).
    System,
}

/// Structural kind of a segment.
#[derive(Debug, Clone, Copy, PartialEq, Eq, Hash)]
pub enum Kind {
    /// Prose.
    Text,
    /// Source-code block.
    Code,
    /// Shell command the agent proposed to run.
    Command,
    /// Captured output of a tool invocation.
    ToolOutput,
    /// Unified diff / patch.
    Patch,
    /// Plan / checklist.
    Plan,
    /// Error message.
    Error,
    /// Permission prompt the agent is blocking on.
    PermissionPrompt,
}

/// A neutral content segment flowing through the pipeline.
#[derive(Debug, Clone, PartialEq, Eq)]
pub struct Segment {
    /// Speaker role.
    pub role: Role,
    /// Structural kind.
    pub kind: Kind,
    /// Raw segment content.
    pub text: String,
}

impl Default for Segment {
    /// An empty assistant text segment.
    fn default() -> (s: Self)
        ensures
            s.role == Role::Assistant,
            s.kind == Kind::Text,
            s.text@ == Seq::<char>::empty(),
    {
        Segment { role: Role::Assistant, kind: Kind::Text, text: String::new() }
    }
}

impl Segment {
    /// A segment with the given role, kind and text.
    pub fn new(role: Role, kind: Kind, text: &str) -> (s: Self)
        ensures
            s.role == role,
            s.kind == kind,
            s.text@ == text@,
    {
        Segment { role, kind, text: text.to_owned() }
    }
}

/// Out-of-band attention signal.
#[derive(Debug, Clone, PartialEq, Eq)]
pub struct AttentionEvent {
    /// What kind of attention is signalled.
    pub kind: AttentionKind,
}

impl Default for AttentionEvent {
    /// A permission-prompt attention event.
    fn default() -> (e: Self)
        ensures
            e.kind == AttentionKind::PermissionPrompt,
    {
        AttentionEvent { kind: AttentionKind::PermissionPrompt }
    }
}

/// What kind of attention an [`AttentionEvent`] signals.
#[derive(Debug, Clone, Copy, PartialEq, Eq, Hash)]
pub enum AttentionKind {
    /// The agent is blocked waiting for operator permission.
    PermissionPrompt,
    /// The agent finished its turn and awaits the next instruction.
    Idle,
}

/// A single completed turn.
#[derive(Debug, Clone, PartialEq, Eq)]
pub struct Turn {
    /// The turn's id.
    pub id: TurnId,
}

/// The events a transcript source emits.
#[derive(Debug, Clone, PartialEq, Eq)]
pub enum SourceEvent {
    /// A content segment.
    Segment(Segment),
    /// An attention signal.
    AttentionEvent(AttentionEvent),
    /// A turn finished.
    TurnComplete(TurnId),
}

/// A chunking decision for one segment.
#[derive(Debug, Clone, PartialEq, Eq)]
pub struct ChunkDecision {
    /// Tier assigned to the segment.
    pub tier: ChunkTier,
    /// Speakable text of the segment.
    pub speakable: String,
}

/// Chunking tier.
#[derive(Debug, Clone, Copy, PartialEq, Eq, Hash)]
pub enum ChunkTier {
    /// Read aloud in full.
    Read,
    /// Announced with a short label.
    Announce,
    /// Announced with a "pull" cue.
    AnnouncePull,
    /// Suppressed entirely.
    Suppress,
}

/// A unit of speech to synthesize.
#[derive(Debug, Clone, PartialEq, Eq)]
pub struct Utterance {
    /// Text to speak.
    pub text: String,
}

impl Utterance {
    /// An utterance of `text`.
    pub fn new(text: &str) -> (u: Self)
        ensures
            u.text@ == text@,
    {
        Utterance { text: text.to_owned() }
    }
}

} // verus!
