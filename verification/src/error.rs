//! The ways in which the bridge can fail.

use vstd::prelude::*;
use vstd::string::StringExecFns;

verus! {

/// The class of a failure, without its diagnostic text.
#[derive(Clone, Copy, Debug, PartialEq, Eq, Structural)]
pub enum ErrorKind {
    /// The sandbox runtime refused its configuration.
    EngineInit,
    /// The binary module is malformed or of an unsupported version.
    Load,
    /// An import or export that the bridge relies on could not be resolved.
    Link,
    /// The sandbox faulted during a call; the session is lost.
    Trap,
    /// The guest declined the operation and said why; the session lives on.
    Domain,
    /// The caller presented a handle that is unknown, stale, or in the wrong
    /// state for the operation.
    InvalidHandle,
}

/// A failure reported by the bridge.
#[derive(Clone, Debug, PartialEq, Eq)]
pub enum GraphvizmError {
    EngineInit(String),
    Load(String),
    Link(String),
    Trap(String),
    Domain(String),
    InvalidHandle,
}

/// The mathematical model of a [`GraphvizmError`]: its class and its
/// diagnostic text (empty for `InvalidHandle`).
pub struct ErrorModel {
    pub kind: ErrorKind,
    pub detail: Seq<char>,
}

/// A failure is fatal when the session, load or process path it arose on
/// cannot go on; the other failures are handed to the caller to deal with.
pub open spec fn kind_is_fatal(kind: ErrorKind) -> bool {
    kind != ErrorKind::Domain && kind != ErrorKind::InvalidHandle
}

/// The fixed text that precedes the diagnostic in a rendered message.
pub open spec fn kind_prefix(kind: ErrorKind) -> Seq<char> {
    match kind {
        ErrorKind::EngineInit => "Failed to initialize Graphvizm engine: "@,
        ErrorKind::Load => "Failed to load Wasm component: "@,
        ErrorKind::Link => "Failed to link Wasm component: "@,
        ErrorKind::Trap => "Sandbox fault: "@,
        ErrorKind::Domain => "Graphviz render failed: "@,
        ErrorKind::InvalidHandle => "Invalid handle"@,
    }
}

impl DeepView for GraphvizmError {
    type V = ErrorModel;

    open spec fn deep_view(&self) -> ErrorModel {
        match self {
            GraphvizmError::EngineInit(d) => ErrorModel { kind: ErrorKind::EngineInit, detail: d@ },
            GraphvizmError::Load(d) => ErrorModel { kind: ErrorKind::Load, detail: d@ },
            GraphvizmError::Link(d) => ErrorModel { kind: ErrorKind::Link, detail: d@ },
            GraphvizmError::Trap(d) => ErrorModel { kind: ErrorKind::Trap, detail: d@ },
            GraphvizmError::Domain(d) => ErrorModel { kind: ErrorKind::Domain, detail: d@ },
            GraphvizmError::InvalidHandle => ErrorModel {
                kind: ErrorKind::InvalidHandle,
                detail: Seq::empty(),
            },
        }
    }
}

impl GraphvizmError {
    /// The class of this failure.
    pub fn kind(&self) -> (k: ErrorKind)
        ensures
            k == self.deep_view().kind,
    {
        match self {
            GraphvizmError::EngineInit(_) => ErrorKind::EngineInit,
            GraphvizmError::Load(_) => ErrorKind::Load,
            GraphvizmError::Link(_) => ErrorKind::Link,
            GraphvizmError::Trap(_) => ErrorKind::Trap,
            GraphvizmError::Domain(_) => ErrorKind::Domain,
            GraphvizmError::InvalidHandle => ErrorKind::InvalidHandle,
        }
    }

    /// Whether this failure ends the path it arose on.
    pub fn is_fatal(&self) -> (fatal: bool)
        ensures
            fatal == kind_is_fatal(self.deep_view().kind),
    {
        match self {
            GraphvizmError::Domain(_) => false,
            GraphvizmError::InvalidHandle => false,
            _ => true,
        }
    }

    /// The message for a human reader: the prefix of the class, then the
    /// diagnostic text.
    pub fn message(&self) -> (text: String)
        ensures
            text@ == kind_prefix(self.deep_view().kind) + self.deep_view().detail,
    {
        match self {
            GraphvizmError::EngineInit(d) => String::from_str(
                "Failed to initialize Graphvizm engine: ",
            ).concat(d.as_str()),
            GraphvizmError::Load(d) => String::from_str("Failed to load Wasm component: ").concat(
                d.as_str(),
            ),
            GraphvizmError::Link(d) => String::from_str("Failed to link Wasm component: ").concat(
                d.as_str(),
            ),
            GraphvizmError::Trap(d) => String::from_str("Sandbox fault: ").concat(d.as_str()),
            GraphvizmError::Domain(d) => String::from_str("Graphviz render failed: ").concat(
                d.as_str(),
            ),
            GraphvizmError::InvalidHandle => {
                let text = String::from_str("Invalid handle");
                text
            },
        }
    }
}

/// The model of a result of the bridge: the value's model, or the failure's.
pub open spec fn outcome<T: DeepView>(r: Result<T, GraphvizmError>) -> Result<T::V, ErrorModel> {
    match r {
        Ok(value) => Ok(value.deep_view()),
        Err(e) => Err(e.deep_view()),
    }
}

} // verus!
