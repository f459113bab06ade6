//! PulseVoice core library: the hook → daemon wire framing, the daemon's
//! per-session dedup bookkeeping, the hook's event-identity derivation and
//! fail-fast delivery decisions, and the transcript reader's settle, probe
//! and summary decisions.

pub mod adapter;
pub mod buffer;
pub mod connection;
pub mod daemon_error;
pub mod dispatch;
pub mod error;
pub mod event;
pub mod payload;
pub mod probe;
pub mod reader;
pub mod session;
pub mod source;
pub mod text;
pub mod tts;
pub mod wire;
