//! Decision logic of a WHEP pull client: codec registration, the
//! offer/answer handshake, per-track dispatch to a media sink, the packet
//! relay loop and coordinated shutdown.
//!
//! The library performs no I/O. Each component is a state machine that takes
//! what happened as a value and answers with what to do next; the embedding
//! program owns the transport, the HTTP client and the media pipeline.

pub mod codec;
pub mod lifecycle;
pub mod negotiator;
pub mod pipeline;
pub mod relay;
pub mod rtp;
pub mod session;
pub mod signaling;
pub mod strings;
