//! Contract types shared by the transcript reader and the daemon.
use vstd::prelude::*;

verus! {

/// Result of probing transcript lines for the expected top-level shape.
#[derive(Debug, PartialEq, Eq)]
pub enum ProbeOutcome {
    /// The shape matched; normal reading may proceed.
    Matched,
    /// The shape drifted; `detail` is a short source-neutral reason.
    Drift { detail: String },
}

/// The mathematical value of a [`ProbeOutcome`].
pub enum ProbeView {
    Matched,
    Drift(Seq<char>),
}

impl View for ProbeOutcome {
    type V = ProbeView;

    open spec fn view(&self) -> ProbeView {
        match self {
            ProbeOutcome::Matched => ProbeView::Matched,
            ProbeOutcome::Drift { detail } => ProbeView::Drift(detail@),
        }
    }
}

impl Clone for ProbeOutcome {
    fn clone(&self) -> (r: Self)
        ensures
            r@ == self@,
    {
        match self {
            ProbeOutcome::Matched => ProbeOutcome::Matched,
            ProbeOutcome::Drift { detail } => ProbeOutcome::Drift { detail: detail.clone() },
        }
    }
}

/// Verdict on one read of a transcript turn.
#[derive(Debug, Clone, Copy, PartialEq, Eq)]
pub enum ReadVerdict {
    /// The content is complete and stable.
    Settled,
    /// The settle window ran out while the file was still growing.
    SettledAtBound,
    /// The file shrank below the previously read offset.
    Truncated,
}

/// Opaque digest of a turn's content; only equality matters.
#[derive(Debug, PartialEq, Eq, Hash)]
pub struct TurnDigest(String);

impl View for TurnDigest {
    type V = Seq<char>;

    closed spec fn view(&self) -> Seq<char> {
        self.0@
    }
}

impl Clone for TurnDigest {
    fn clone(&self) -> (r: Self)
        ensures
            r@ == self@,
    {
        TurnDigest(self.0.clone())
    }
}

impl TurnDigest {
    /// A digest holding `digest`.
    pub fn new(digest: &str) -> (d: Self)
        ensures
            d@ == digest@,
    {
        TurnDigest(digest.to_owned())
    }

    /// A digest taking ownership of `digest`.
    pub fn from_string(digest: String) -> (d: Self)
        ensures
            d@ == digest@,
    {
        TurnDigest(digest)
    }

    /// The digest's text.
    pub fn as_str(&self) -> (s: &str)
        ensures
            s@ == self@,
    {
        self.0.as_str()
    }
}

/// One read attempt against a transcript turn.
#[derive(Debug, Clone, PartialEq, Eq)]
pub struct TurnRead {
    /// Digest of the content read.
    pub digest: TurnDigest,
    /// Whether the read settled.
    pub verdict: ReadVerdict,
    /// Transcript offset the read consumed up to; the next read resumes here.
    pub read_offset: u64,
}

} // verus!
