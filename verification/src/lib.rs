//! Host side of a sandboxed graph-visualization engine.
//!
//! The engine itself runs as a guest inside a sandbox runtime. This library
//! is the bridge to it: it brings a guest up ([`lifecycle`], [`session`]),
//! puts the arguments of each exported operation into their wire form
//! ([`request`], [`wire`]), reads what comes back ([`reply`]), holds the
//! guest to the types that it calls it with ([`signature`]), and keeps a
//! table of the handles that the guest has given out and of the state of
//! each pair of a context and a graph ([`table`]). A call with a handle that
//! is unknown, or in the wrong state for the call, fails before the guest is
//! reached.
//!
//! What the runtime does is taken on trust; the calls into it stand in
//! [`runtime`], each with what is assumed of it.

pub mod assoc;
pub mod error;
pub mod handles;
pub mod lifecycle;
pub mod reply;
pub mod request;
pub mod runtime;
pub mod session;
pub mod signature;
pub mod table;
pub mod wire;

pub use error::{ErrorKind, GraphvizmError};
pub use handles::{ContextHandle, EdgeHandle, GraphHandle, NodeHandle};
pub use lifecycle::{initialize, initialize_within, load, CapabilitySet, Module, Sandbox};
pub use session::{instantiate, Session};
pub use table::{HandleTable, PairState};
pub use wire::AttributeValue;
