//! The daemon's error type. Every variant is recoverable: the daemon drops
//! the offending connection (or marker write) and stays up.
use vstd::prelude::*;

use std::path::PathBuf;

use crate::text::{push_decimal, push_str, decimal};
use crate::wire::WireError;

verus! {

/// `std::io::Error`.
#[verifier::external_type_specification]
#[verifier::external_body]
pub struct ExIoError(std::io::Error);

/// `tokio::task::JoinError`, a background task that panicked or was
/// cancelled.
#[verifier::external_type_specification]
#[verifier::external_body]
pub struct ExJoinError(tokio::task::JoinError);

/// Error raised at the daemon's seams.
#[derive(Debug)]
pub enum DaemonError {
    /// The peer delivered fewer bytes than the frame announced, closed
    /// mid-frame, or ran out of time; nothing was forwarded.
    ShortFrame { detail: String },
    /// A wire failure that is not a truncation (a body that is not a
    /// [`WireEvent`](crate::wire::WireEvent)).
    Wire(WireError),
    /// The envelope's schema version is not the daemon's.
    SchemaVersion { envelope: u16, daemon: u16 },
    /// An I/O failure on the socket or its directory.
    Io(std::io::Error),
    /// A background task panicked or was cancelled.
    Join(tokio::task::JoinError),
    /// The degraded-mode marker could not be written or removed.
    DegradedMarker { path: PathBuf, source: std::io::Error },
}

impl DaemonError {
    /// Whether this error is a short frame.
    pub fn is_short_frame(&self) -> (b: bool)
        ensures
            b == (self is ShortFrame),
    {
        match self {
            DaemonError::ShortFrame { .. } => true,
            _ => false,
        }
    }
}

/// The message of a truncation: how many bytes were needed or announced, and
/// how many there were.
pub open spec fn truncation_message(e: WireError) -> Seq<char> {
    match e {
        WireError::TruncatedPrefix { need, have } => "incomplete length prefix: need "@ + decimal(
            need as nat,
        ) + " bytes, have "@ + decimal(have as nat),
        WireError::TruncatedBody { claimed, have } => "incomplete body: length prefix says "@
            + decimal(claimed as nat) + " bytes, have "@ + decimal(have as nat),
        WireError::Json(_) => Seq::empty(),
    }
}

fn describe_truncation(e: &WireError) -> (s: String)
    requires
        !(e is Json),
    ensures
        s@ == truncation_message(*e),
{
    match e {
        WireError::TruncatedPrefix { need, have } => {
            let mut s = "incomplete length prefix: need ".to_owned();
            proof {
                reveal_strlit("incomplete length prefix: need ");
                reveal_strlit(" bytes, have ");
            }
            push_decimal(&mut s, *need as u64);
            push_str(&mut s, " bytes, have ");
            push_decimal(&mut s, *have as u64);
            s
        },
        WireError::TruncatedBody { claimed, have } => {
            let mut s = "incomplete body: length prefix says ".to_owned();
            proof {
                reveal_strlit("incomplete body: length prefix says ");
                reveal_strlit(" bytes, have ");
            }
            push_decimal(&mut s, *claimed as u64);
            push_str(&mut s, " bytes, have ");
            push_decimal(&mut s, *have as u64);
            s
        },
        WireError::Json(_) => String::new(),
    }
}

impl DaemonError {
    /// The daemon error of a wire failure: a truncation becomes a short frame
    /// carrying its message; any other wire error stays a wire error.
    pub fn from_wire(e: WireError) -> (r: DaemonError)
        ensures
            !(e is Json) ==> (r matches DaemonError::ShortFrame { detail } && detail@
                == truncation_message(e)),
            e is Json ==> r == DaemonError::Wire(e),
    {
        if e.is_truncation() {
            DaemonError::ShortFrame { detail: describe_truncation(&e) }
        } else {
            DaemonError::Wire(e)
        }
    }
}

impl From<WireError> for DaemonError {
    /// See [`DaemonError::from_wire`].
    fn from(e: WireError) -> (r: DaemonError)
        ensures
            !(e is Json) ==> (r matches DaemonError::ShortFrame { detail } && detail@
                == truncation_message(e)),
            e is Json ==> r == DaemonError::Wire(e),
    {
        DaemonError::from_wire(e)
    }
}

/// The conversion's result holds a message `String` that no specification
/// value can name exactly, so it is not given as one value here; the
/// conversion's own `ensures` states its result (a truncation becomes a
/// short frame carrying its message, any other error stays a wire error).
impl vstd::std_specs::convert::FromSpecImpl<WireError> for DaemonError {
    open spec fn obeys_from_spec() -> bool {
        false
    }

    open spec fn from_spec(e: WireError) -> DaemonError {
        DaemonError::Wire(e)
    }
}

impl From<std::io::Error> for DaemonError {
    fn from(e: std::io::Error) -> (r: DaemonError) {
        DaemonError::Io(e)
    }
}

impl vstd::std_specs::convert::FromSpecImpl<std::io::Error> for DaemonError {
    open spec fn obeys_from_spec() -> bool {
        true
    }

    open spec fn from_spec(e: std::io::Error) -> DaemonError {
        DaemonError::Io(e)
    }
}

impl From<tokio::task::JoinError> for DaemonError {
    fn from(e: tokio::task::JoinError) -> (r: DaemonError) {
        DaemonError::Join(e)
    }
}

impl vstd::std_specs::convert::FromSpecImpl<tokio::task::JoinError> for DaemonError {
    open spec fn obeys_from_spec() -> bool {
        true
    }

    open spec fn from_spec(e: tokio::task::JoinError) -> DaemonError {
        DaemonError::Join(e)
    }
}

} // verus!
