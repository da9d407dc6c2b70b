//! Command dispatch: binds a user intent to its local optimistic transition
//! and to the runtime call the surrounding program must issue.
//!
//! The runtime calls are fire-and-forget: their direct return value carries
//! no final state, so each function here performs the local transition and
//! hands back a description of the call to make. The surrounding program
//! issues the call; the authoritative outcome arrives later as a
//! notification and goes through the router.

use vstd::prelude::*;
use crate::collection::AppData;
use crate::overlay::Overlay;
use crate::router::InvariantViolation;

verus! {

/// The configuration payload of a reconfigure intent: dimensions and the
/// target content locator.
#[derive(Debug, Clone, PartialEq, Eq)]
pub struct WebContents {
    pub width: u32,
    pub height: u32,
    pub url: String,
}

/// One call against the external runtime's command API, to be issued by the
/// surrounding program after the local transition is recorded.
#[derive(Debug, Clone, PartialEq, Eq)]
pub enum RuntimeCall {
    /// Request creation of a new overlay. The call's direct return value is
    /// not authoritative and must be ignored; the real identifier arrives
    /// later as a spawn-completion notification.
    Spawn,
    /// Request destruction of the live overlay with this identifier.
    Close(u64),
    /// Point the live overlay with this identifier at new web contents.
    SetContentsWebsite(u64, WebContents),
}

/// The add intent: append a `Spawning` entry, then ask the runtime to spawn.
///
/// The entry is appended before the call is issued, so the UI shows the
/// pending overlay at once; it is promoted to `Live` only by the matching
/// notification.
pub fn add_overlay(data: &mut AppData) -> (c: RuntimeCall)
    ensures
        final(data)@ == old(data)@.push(Overlay::Spawning),
        c == RuntimeCall::Spawn,
{
    data.append_spawning();
    RuntimeCall::Spawn
}

/// The close intent, valid only on an overlay that is alive: the entry
/// becomes `Closing(id)` locally first, so the UI immediately reflects the
/// pending close, and the runtime is then asked to close `id`.
///
/// On an entry that is not alive nothing changes and the fatal `NotAlive`
/// violation is reported: the UI is responsible for only exposing the action
/// for alive overlays, so this case means the UI and the state have
/// desynchronized.
pub fn close_overlay(data: &mut AppData, index: usize) -> (r: Result<RuntimeCall, InvariantViolation>)
    requires
        index < old(data)@.len(),
    ensures
        match old(data)@[index as int] {
            Overlay::Live(id) => {
                &&& r == Ok::<RuntimeCall, InvariantViolation>(RuntimeCall::Close(id))
                &&& final(data)@ == old(data)@.update(index as int, Overlay::Closing(id))
            },
            _ => {
                &&& r == Err::<RuntimeCall, InvariantViolation>(InvariantViolation::NotAlive)
                &&& final(data)@ == old(data)@
            },
        },
{
    let ov = data.get(index);
    match ov.get_alive() {
        Some(id) => {
            data.mark_closing(index, id);
            Ok(RuntimeCall::Close(id))
        }
        None => Err(InvariantViolation::NotAlive),
    }
}

/// The reconfigure intent, valid only on an overlay that is alive: build the
/// configuration payload and ask the runtime to set the overlay's contents.
/// Configuration does not change lifecycle state, so the collection is not
/// touched.
///
/// On an entry that is not alive the fatal `NotAlive` violation is reported,
/// as for `close_overlay`.
pub fn reconfigure(data: &AppData, index: usize, width: u32, height: u32, url: String) -> (r: Result<
    RuntimeCall,
    InvariantViolation,
>)
    requires
        index < data@.len(),
    ensures
        match data@[index as int] {
            Overlay::Live(id) => r == Ok::<RuntimeCall, InvariantViolation>(
                RuntimeCall::SetContentsWebsite(id, WebContents { width, height, url }),
            ),
            _ => r == Err::<RuntimeCall, InvariantViolation>(InvariantViolation::NotAlive),
        },
{
    let ov = data.get(index);
    match ov.get_alive() {
        Some(id) => Ok(RuntimeCall::SetContentsWebsite(id, WebContents { width, height, url })),
        None => Err(InvariantViolation::NotAlive),
    }
}

} // verus!
