//! The event router: applies one runtime notification to the collection.
//!
//! The external runtime delivers notifications from its own execution
//! context; a bridge (outside this library) re-injects them one at a time
//! into the UI's serialized mutation loop, which calls `route` for each.
//! `route` pattern-matches the notification and applies exactly one
//! lifecycle transition, or reports the fatal desynchronization cases, on
//! which the caller is expected to halt rather than guess at repair.

use vstd::prelude::*;
use crate::collection::AppData;
use crate::collection::find_closing;
use crate::overlay::Overlay;

verus! {

/// One notification from the external runtime, carrying zero or one
/// identifiers. Transient: consumed immediately upon routing, never stored.
///
/// A spawn completion arrives by either of two delivery paths, an
/// event-response or a direct callback, both carrying the new identifier.
/// The remaining variants are the kinds the UI does not act on.
#[derive(Debug, Clone, Copy, PartialEq, Eq, Structural)]
pub enum Notification {
    /// Feedback and telemetry; ignored.
    Feedback,
    /// The runtime confirmed a spawn, delivered as an event response.
    SpawnCompletedResponse(u64),
    /// The runtime confirmed a spawn, delivered as a direct callback.
    SpawnCompletedCallback(u64),
    /// The runtime confirmed a close of the overlay with this identifier.
    CloseCompleted(u64),
    /// Any other event kind; ignored for forward compatibility.
    OtherEvent,
    /// Any other callback kind; ignored for forward compatibility.
    OtherCallback,
}

/// The fatal inconsistencies: the UI and the external runtime have
/// desynchronized, which is not locally recoverable. The design halts on
/// them instead of guessing at repair, since silently "fixing" a corrupted
/// lifecycle could mask dropped notifications.
#[derive(Debug, Clone, Copy, PartialEq, Eq, Structural)]
pub enum InvariantViolation {
    /// A spawn completion arrived but the last entry is not a `Spawning`
    /// one (or there is no entry at all).
    LastNotSpawning,
    /// A close completion arrived but no `Closing` entry carries its
    /// identifier.
    NoMatchingClosing,
    /// A user action that is valid only on a `Live` overlay was applied to
    /// one that is not alive.
    NotAlive,
}

/// What one notification does to the collection: the new sequence of
/// overlays, or the fatal inconsistency it exposes.
///
/// A spawn completion promotes the last entry, which must be `Spawning`, to
/// `Live`. A close completion removes the first `Closing` entry with the
/// matching identifier. Every other notification leaves the collection
/// unchanged.
pub open spec fn step(s: Seq<Overlay>, n: Notification) -> Result<Seq<Overlay>, InvariantViolation> {
    match n {
        Notification::SpawnCompletedResponse(id) => spawn_completed(s, id),
        Notification::SpawnCompletedCallback(id) => spawn_completed(s, id),
        Notification::CloseCompleted(id) => close_completed(s, id),
        Notification::Feedback => Ok(s),
        Notification::OtherEvent => Ok(s),
        Notification::OtherCallback => Ok(s),
    }
}

/// The spawn-completion transition: the last entry, which must be the
/// pending `Spawning` one, becomes `Live(id)`.
pub open spec fn spawn_completed(s: Seq<Overlay>, id: u64) -> Result<Seq<Overlay>, InvariantViolation> {
    if s.len() > 0 && s.last() is Spawning {
        Ok(s.update(s.len() - 1, Overlay::Live(id)))
    } else {
        Err(InvariantViolation::LastNotSpawning)
    }
}

/// The close-completion transition: the first `Closing(id)` entry is
/// removed, the rest keep their relative order.
pub open spec fn close_completed(s: Seq<Overlay>, id: u64) -> Result<Seq<Overlay>, InvariantViolation> {
    match find_closing(s, id) {
        Some(i) => Ok(s.remove(i)),
        None => Err(InvariantViolation::NoMatchingClosing),
    }
}

/// Apply one notification to the collection.
///
/// On success the collection is exactly what `step` gives; on a fatal
/// inconsistency the collection is left untouched and the violation is
/// reported, so no partially corrupted state is ever displayed. The caller
/// (the UI loop) halts on a violation.
pub fn route(data: &mut AppData, n: Notification) -> (r: Result<(), InvariantViolation>)
    ensures
        match step(old(data)@, n) {
            Ok(s) => r is Ok && final(data)@ == s,
            Err(v) => r == Err::<(), InvariantViolation>(v) && final(data)@ == old(data)@,
        },
{
    match n {
        Notification::SpawnCompletedResponse(id) => route_spawn_completed(data, id),
        Notification::SpawnCompletedCallback(id) => route_spawn_completed(data, id),
        Notification::CloseCompleted(id) => {
            match data.find_closing_index(id) {
                Some(_) => {
                    data.remove_by_id(id);
                    Ok(())
                }
                None => Err(InvariantViolation::NoMatchingClosing),
            }
        }
        Notification::Feedback => Ok(()),
        Notification::OtherEvent => Ok(()),
        Notification::OtherCallback => Ok(()),
    }
}

/// The spawn-completion half of `route`.
fn route_spawn_completed(data: &mut AppData, id: u64) -> (r: Result<(), InvariantViolation>)
    ensures
        match spawn_completed(old(data)@, id) {
            Ok(s) => r is Ok && final(data)@ == s,
            Err(v) => r == Err::<(), InvariantViolation>(v) && final(data)@ == old(data)@,
        },
{
    let n = data.len();
    if n > 0 && data.get(n - 1) == Overlay::Spawning {
        data.promote_last_spawning(id);
        Ok(())
    } else {
        Err(InvariantViolation::LastNotSpawning)
    }
}

} // verus!
