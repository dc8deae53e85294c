//! Opaque identifiers for objects that live inside the guest.
//!
//! The host never looks behind a handle: it is a number that the guest gave
//! out and that the guest alone can resolve.

use vstd::prelude::*;

verus! {

/// Identifies a rendering context of the guest.
#[derive(Clone, Copy, Debug, PartialEq, Eq, Hash, Structural)]
pub struct ContextHandle {
    pub raw: u32,
}

/// Identifies a graph of the guest.
#[derive(Clone, Copy, Debug, PartialEq, Eq, Hash, Structural)]
pub struct GraphHandle {
    pub raw: u32,
}

/// Identifies a node within the graph it was added to.
#[derive(Clone, Copy, Debug, PartialEq, Eq, Hash, Structural)]
pub struct NodeHandle {
    pub raw: u32,
}

/// Identifies an edge within the graph it was added to.
#[derive(Clone, Copy, Debug, PartialEq, Eq, Hash, Structural)]
pub struct EdgeHandle {
    pub raw: u32,
}

impl DeepView for ContextHandle {
    type V = u32;

    open spec fn deep_view(&self) -> u32 {
        self.raw
    }
}

impl DeepView for GraphHandle {
    type V = u32;

    open spec fn deep_view(&self) -> u32 {
        self.raw
    }
}

impl DeepView for NodeHandle {
    type V = u32;

    open spec fn deep_view(&self) -> u32 {
        self.raw
    }
}

impl DeepView for EdgeHandle {
    type V = u32;

    open spec fn deep_view(&self) -> u32 {
        self.raw
    }
}

} // verus!
