//! Server-side SOCKS5 handshake: a byte-exact codec for the negotiation
//! frames of RFC 1928 and RFC 1929, the method-selection policy, and the
//! state machine that takes one connection from its greeting to "ready to
//! relay" or "rejected".
//!
//! Every frame is self-describing, so each decoder takes whatever bytes are
//! at hand, says how many of them the frame occupies, and never looks beyond
//! that count. The state machine does no I/O of its own: it is handed bytes
//! and collaborator answers as events and hands back what to do next.

pub mod address;
pub mod auth;
pub mod bytes;
pub mod codes;
pub mod framing;
pub mod greeting;
pub mod request;
pub mod selector;
pub mod session;
