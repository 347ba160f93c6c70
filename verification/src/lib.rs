//! Control-plane bridge between a single-threaded host and the init and login
//! managers on the system bus.
//!
//! The host asks for an operation and gets a handle back at once; the operation is
//! carried out in the background and the handle is settled exactly once when it is
//! done. This library holds everything about that which can be decided without
//! touching the bus or the host:
//!
//! - `proxy`: the remote interfaces, as descriptions of the bus calls they stand for,
//!   and the decoding of replies;
//! - `call`: the state machine of one call, from dispatch to settlement;
//! - `bridge`: the shaping of a terminal result into the settlement that the host sees;
//! - `error`: the classes of failure and their messages;
//! - `laws`: what is proved of every call.
//!
//! Whoever embeds the library owns the connection, the executor and the handles. It
//! feeds events to a `call::PendingCall` and does what the call asks for.

pub mod bridge;
pub mod call;
pub mod error;
pub mod laws;
pub mod proxy;

pub use proxy::{Job, LoginManager, ServiceManager, Unit};
