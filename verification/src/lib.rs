//! A best-effort telemetry forwarder: producers hand in events without ever
//! blocking, a bounded queue holds them, and a single connection loop streams
//! them to a collector, discarding whatever was queued while disconnected.

pub mod event;
pub mod wire;
pub mod queue;
pub mod forwarder;
pub mod laws;

pub use event::{IpFeeMsg, PeerIp};
pub use forwarder::{ipfee_connect, ipfee_send, IpFee, LoopAction, LoopEvent, Phase, RETRY_INTERVAL_MILLIS};
pub use queue::{BoundedQueue, MAX_BUFFERED_IPFEE_MESSAGES};
pub use wire::{encode, EncodeError};
