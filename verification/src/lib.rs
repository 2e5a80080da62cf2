//! Session-typed channels with a runtime-checked protocol state.
//!
//! A protocol descriptor spells out the sequence of sends, receives,
//! branches and loops that one party of a conversation must follow.  Two
//! parties can talk over one bidirectional transport exactly when their
//! descriptors are dual.  A channel handle pairs a transport endpoint with
//! its current descriptor and an environment stack for recursion; every
//! operation consumes the handle and yields a new one at the successor
//! state, so a stale handle can never be used again.

pub mod chan;
pub mod proto;
pub mod select;
pub mod session;
pub mod steps;
pub mod transport;

pub use chan::Chan;
pub use chan::Either;
pub use chan::SessionError;
pub use proto::Kind;
pub use proto::Protocol;
pub use proto::Value;
pub use select::ChanSelect;
pub use select::hselect;
pub use select::iselect;
pub use session::accept;
pub use session::borrow_accept;
pub use session::borrow_request;
pub use session::request;
pub use transport::Channel;
