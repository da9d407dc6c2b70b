//! Lifecycle tracking for overlay surfaces owned by an external runtime.
//!
//! The runtime creates and destroys overlays asynchronously: a user action
//! only requests a transition, and the authoritative outcome arrives later
//! as a notification from the runtime's own execution context, with no
//! synchronous return value carrying final state. This library holds the
//! UI-visible collection of overlays, the optimistic local transitions each
//! user intent performs (`dispatch`), and the router that applies each
//! delivered notification as one serialized mutation (`router`). The
//! desynchronization cases the design treats as fatal are reported as
//! `InvariantViolation` values; the surrounding program halts on them.

pub mod collection;
pub mod dispatch;
pub mod laws;
pub mod overlay;
pub mod router;
