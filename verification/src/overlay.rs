//! A single overlay surface as the UI tracks it.
//!
//! An overlay is created by the external runtime asynchronously: the UI first
//! records the request (`Spawning`), later the runtime confirms creation and
//! assigns the identifier (`Live`), and a requested close keeps the identifier
//! until the runtime confirms destruction (`Closing`).

use vstd::prelude::*;

verus! {

/// Lifecycle state of one overlay surface.
///
/// The identifier is an opaque handle assigned by the external runtime when it
/// confirms creation; it stays stable for the overlay's live duration and is
/// used for every further runtime call about this overlay. No overlay is ever
/// created already `Live` or `Closing`.
#[derive(Debug, Clone, Copy, PartialEq, Eq, PartialOrd, Ord, Structural)]
pub enum Overlay {
    /// Creation requested; no identifier assigned yet.
    Spawning,
    /// The runtime confirmed creation under this identifier.
    Live(u64),
    /// Close requested; the identifier is kept so the matching
    /// close-completion notification can be correlated.
    Closing(u64),
}

impl Overlay {
    /// The identifier, exactly when the overlay is `Live`.
    pub open spec fn spec_alive(self) -> Option<u64> {
        match self {
            Overlay::Live(id) => Some(id),
            _ => None,
        }
    }

    /// The identifier, exactly when the overlay is `Closing`.
    pub open spec fn spec_closing(self) -> Option<u64> {
        match self {
            Overlay::Closing(id) => Some(id),
            _ => None,
        }
    }

    /// True iff the runtime has confirmed creation and no close is pending;
    /// consistent with `get_alive`: the accessor returns a value iff this
    /// predicate holds.
    pub fn is_alive(&self) -> (r: bool)
        ensures
            r == (self is Live),
            r == (self.spec_alive() is Some),
    {
        self.get_alive().is_some()
    }

    /// True iff a close was requested and its completion is still pending;
    /// consistent with `get_closing` the same way.
    pub fn is_closing(&self) -> (r: bool)
        ensures
            r == (self is Closing),
            r == (self.spec_closing() is Some),
    {
        self.get_closing().is_some()
    }

    /// The runtime identifier of a `Live` overlay, absence otherwise.
    pub fn get_alive(&self) -> (r: Option<u64>)
        ensures
            r == self.spec_alive(),
    {
        match self {
            Overlay::Live(id) => Some(*id),
            _ => None,
        }
    }

    /// The runtime identifier of a `Closing` overlay, absence otherwise.
    pub fn get_closing(&self) -> (r: Option<u64>)
        ensures
            r == self.spec_closing(),
    {
        match self {
            Overlay::Closing(id) => Some(*id),
            _ => None,
        }
    }
}

} // verus!
