//! Fail-fast delivery decisions of the hook.
//!
//! Delivery goes through three stages: the socket file must exist, the
//! connect must finish within its bound, and the frame write must finish
//! within its bound. The first stage that does not succeed decides the
//! outcome; each outcome has its own process exit code.
use vstd::prelude::*;

use std::path::PathBuf;
use std::time::Duration;

use crate::adapter::clone_path;
use crate::payload::HookKindArg;
use crate::reader::{duration_from_millis, millis_duration};

verus! {

/// Default bound on the connect, in milliseconds.
pub const DEFAULT_CONNECT_TIMEOUT_MS: u64 = 200;

/// Default bound on the frame write, in milliseconds.
pub const DEFAULT_WRITE_TIMEOUT_MS: u64 = 500;

/// The hook's command line.
#[derive(Debug)]
pub struct Cli {
    /// Path of the daemon's socket.
    pub socket_path: PathBuf,
    /// Which hook fired.
    pub hook_kind: HookKindArg,
    /// Bound on each of connect and write in milliseconds; 0 for the defaults.
    pub timeout_ms: u64,
}

impl Clone for Cli {
    fn clone(&self) -> (r: Self)
        ensures
            r.socket_path == self.socket_path,
            r.hook_kind == self.hook_kind,
            r.timeout_ms == self.timeout_ms,
    {
        Cli {
            socket_path: clone_path(&self.socket_path),
            hook_kind: self.hook_kind,
            timeout_ms: self.timeout_ms,
        }
    }
}

/// How a delivery ended.
#[derive(Debug, Clone, Copy, PartialEq, Eq)]
pub enum DeliverOutcome {
    /// The frame was written. Exit 0.
    Delivered,
    /// No socket file at the path: the daemon is not running. Exit 2.
    SocketAbsent,
    /// The connect was refused or did not finish in time. Exit 3.
    ConnectFailed,
    /// The frame could not be written in time. Exit 4.
    WriteTimedOut,
}

/// The process exit code of each outcome.
pub open spec fn exit_code_spec(o: DeliverOutcome) -> u8 {
    match o {
        DeliverOutcome::Delivered => 0,
        DeliverOutcome::SocketAbsent => 2,
        DeliverOutcome::ConnectFailed => 3,
        DeliverOutcome::WriteTimedOut => 4,
    }
}

impl DeliverOutcome {
    /// The process exit code for this outcome: 0, 2, 3 or 4.
    pub fn exit_code(self) -> (c: u8)
        ensures
            c == exit_code_spec(self),
    {
        match self {
            DeliverOutcome::Delivered => 0,
            DeliverOutcome::SocketAbsent => 2,
            DeliverOutcome::ConnectFailed => 3,
            DeliverOutcome::WriteTimedOut => 4,
        }
    }
}

/// A stage of a delivery.
#[derive(Debug, Clone, Copy, PartialEq, Eq)]
pub enum DeliverStage {
    /// Check that the socket file exists.
    CheckSocket,
    /// Connect to the socket within the connect bound.
    Connect,
    /// Encode the frame and write it within the write bound.
    Write,
}

/// How a stage went.
#[derive(Debug, Clone, Copy, PartialEq, Eq)]
pub enum StageResult {
    /// The stage did what it should.
    Succeeded,
    /// The stage failed outright.
    Failed,
    /// The stage ran out of time.
    TimedOut,
}

/// What follows a stage.
#[derive(Debug, Clone, Copy, PartialEq, Eq)]
pub enum DeliverNext {
    /// Go on with this stage.
    Proceed(DeliverStage),
    /// The delivery is over.
    Finish(DeliverOutcome),
}

/// What follows `stage` ending with `result`.
pub open spec fn deliver_next_spec(stage: DeliverStage, result: StageResult) -> DeliverNext {
    match (stage, result) {
        (DeliverStage::CheckSocket, StageResult::Succeeded) => DeliverNext::Proceed(
            DeliverStage::Connect,
        ),
        (DeliverStage::CheckSocket, _) => DeliverNext::Finish(DeliverOutcome::SocketAbsent),
        (DeliverStage::Connect, StageResult::Succeeded) => DeliverNext::Proceed(
            DeliverStage::Write,
        ),
        (DeliverStage::Connect, _) => DeliverNext::Finish(DeliverOutcome::ConnectFailed),
        (DeliverStage::Write, StageResult::Succeeded) => DeliverNext::Finish(
            DeliverOutcome::Delivered,
        ),
        (DeliverStage::Write, _) => DeliverNext::Finish(DeliverOutcome::WriteTimedOut),
    }
}

/// Decide what follows a delivery stage (see [`deliver_next_spec`]).
pub fn deliver_next(stage: DeliverStage, result: StageResult) -> (n: DeliverNext)
    ensures
        n == deliver_next_spec(stage, result),
{
    match stage {
        DeliverStage::CheckSocket => match result {
            StageResult::Succeeded => DeliverNext::Proceed(DeliverStage::Connect),
            _ => DeliverNext::Finish(DeliverOutcome::SocketAbsent),
        },
        DeliverStage::Connect => match result {
            StageResult::Succeeded => DeliverNext::Proceed(DeliverStage::Write),
            _ => DeliverNext::Finish(DeliverOutcome::ConnectFailed),
        },
        DeliverStage::Write => match result {
            StageResult::Succeeded => DeliverNext::Finish(DeliverOutcome::Delivered),
            _ => DeliverNext::Finish(DeliverOutcome::WriteTimedOut),
        },
    }
}

/// The outcome of a delivery whose stages went `socket`, `connect`, `write`
/// (a later stage only runs when the earlier ones succeeded).
pub open spec fn delivery_outcome(
    socket: StageResult,
    connect: StageResult,
    write: StageResult,
) -> DeliverOutcome {
    match deliver_next_spec(DeliverStage::CheckSocket, socket) {
        DeliverNext::Finish(o) => o,
        DeliverNext::Proceed(s1) => match deliver_next_spec(s1, connect) {
            DeliverNext::Finish(o) => o,
            DeliverNext::Proceed(s2) => match deliver_next_spec(s2, write) {
                DeliverNext::Finish(o) => o,
                DeliverNext::Proceed(_) => DeliverOutcome::WriteTimedOut,
            },
        },
    }
}

/// Delivery law: a delivery is `Delivered` (exit 0) exactly when all three
/// stages succeed; otherwise the first stage that did not succeed decides the
/// outcome, and its exit code is non-zero.
pub proof fn lemma_delivery_fails_fast(socket: StageResult, connect: StageResult, write: StageResult)
    ensures
        (delivery_outcome(socket, connect, write) == DeliverOutcome::Delivered) <==> (socket
            == StageResult::Succeeded && connect == StageResult::Succeeded && write
            == StageResult::Succeeded),
        socket != StageResult::Succeeded ==> delivery_outcome(socket, connect, write)
            == DeliverOutcome::SocketAbsent,
        socket == StageResult::Succeeded && connect != StageResult::Succeeded ==> delivery_outcome(
            socket,
            connect,
            write,
        ) == DeliverOutcome::ConnectFailed,
        socket == StageResult::Succeeded && connect == StageResult::Succeeded && write
            != StageResult::Succeeded ==> delivery_outcome(socket, connect, write)
            == DeliverOutcome::WriteTimedOut,
        (exit_code_spec(delivery_outcome(socket, connect, write)) == 0) <==> (delivery_outcome(
            socket,
            connect,
            write,
        ) == DeliverOutcome::Delivered),
{
}

/// The (connect, write) bounds for a command-line override given in
/// milliseconds: 0 keeps the defaults (200 ms connect, 500 ms write), any
/// other value bounds both.
pub fn resolve_timeouts(timeout_ms: u64) -> (r: (Duration, Duration))
    ensures
        timeout_ms == 0 ==> r == (
            millis_duration(DEFAULT_CONNECT_TIMEOUT_MS),
            millis_duration(DEFAULT_WRITE_TIMEOUT_MS),
        ),
        timeout_ms != 0 ==> r == (millis_duration(timeout_ms), millis_duration(timeout_ms)),
{
    if timeout_ms == 0 {
        (
            duration_from_millis(DEFAULT_CONNECT_TIMEOUT_MS),
            duration_from_millis(DEFAULT_WRITE_TIMEOUT_MS),
        )
    } else {
        let t = duration_from_millis(timeout_ms);
        (t, t)
    }
}

} // verus!
