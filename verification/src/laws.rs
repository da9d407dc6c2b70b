//! Properties of the lifecycle as a whole, over sequences of user actions
//! and runtime notifications.
//!
//! The model: a `Step` is either a user intent (add, close) or a delivered
//! notification, and `replay` folds a sequence of steps over the empty
//! collection exactly as the dispatch functions and the router apply them
//! one at a time on the serialized mutation loop.

use vstd::prelude::*;
use crate::collection::find_closing;
use crate::collection::lemma_find_closing;
use crate::overlay::Overlay;
use crate::router::InvariantViolation;
use crate::router::Notification;
use crate::router::step;

verus! {

/// One serialized mutation of the collection: a user action as the dispatch
/// functions record it, or a notification as the router applies it.
pub enum Step {
    /// The add intent: append a `Spawning` entry.
    AddAction,
    /// The close intent on the entry at this position, which must be alive.
    CloseAction(int),
    /// A notification delivered by the external runtime.
    Notify(Notification),
}

/// What one step does to the collection, or the fatal violation it exposes.
pub open spec fn apply_step(s: Seq<Overlay>, st: Step) -> Result<Seq<Overlay>, InvariantViolation> {
    match st {
        Step::AddAction => Ok(s.push(Overlay::Spawning)),
        Step::CloseAction(i) => {
            if 0 <= i < s.len() && s[i] is Live {
                Ok(s.update(i, Overlay::Closing(s[i]->Live_0)))
            } else {
                Err(InvariantViolation::NotAlive)
            }
        },
        Step::Notify(n) => step(s, n),
    }
}

/// Fold a sequence of steps over a starting collection, stopping at the
/// first fatal violation, as the halting mutation loop does.
pub open spec fn replay_from(s: Seq<Overlay>, steps: Seq<Step>) -> Result<
    Seq<Overlay>,
    InvariantViolation,
>
    decreases steps.len(),
{
    if steps.len() == 0 {
        Ok(s)
    } else {
        match apply_step(s, steps[0]) {
            Ok(s2) => replay_from(s2, steps.drop_first()),
            Err(v) => Err(v),
        }
    }
}

/// The collection a sequence of steps produces from the initial, empty
/// state.
pub open spec fn replay(steps: Seq<Step>) -> Result<Seq<Overlay>, InvariantViolation> {
    replay_from(Seq::<Overlay>::empty(), steps)
}

/// 1 iff the overlay is `Spawning`.
pub open spec fn one_if_spawning(ov: Overlay) -> int {
    if ov is Spawning {
        1
    } else {
        0
    }
}

/// 1 iff the overlay is `Live`.
pub open spec fn one_if_live(ov: Overlay) -> int {
    if ov is Live {
        1
    } else {
        0
    }
}

/// 1 iff the overlay is `Closing`.
pub open spec fn one_if_closing(ov: Overlay) -> int {
    if ov is Closing {
        1
    } else {
        0
    }
}

/// 1 iff the overlay is exactly `Closing(id)`.
pub open spec fn one_if_closing_id(ov: Overlay, id: u64) -> int {
    if ov == Overlay::Closing(id) {
        1
    } else {
        0
    }
}

/// Number of `Spawning` entries.
pub open spec fn count_spawning(s: Seq<Overlay>) -> int
    decreases s.len(),
{
    if s.len() == 0 {
        0
    } else {
        one_if_spawning(s[0]) + count_spawning(s.drop_first())
    }
}

/// Number of `Live` entries.
pub open spec fn count_live(s: Seq<Overlay>) -> int
    decreases s.len(),
{
    if s.len() == 0 {
        0
    } else {
        one_if_live(s[0]) + count_live(s.drop_first())
    }
}

/// Number of `Closing` entries.
pub open spec fn count_closing(s: Seq<Overlay>) -> int
    decreases s.len(),
{
    if s.len() == 0 {
        0
    } else {
        one_if_closing(s[0]) + count_closing(s.drop_first())
    }
}

/// Number of entries equal to `Closing(id)`.
pub open spec fn count_closing_id(s: Seq<Overlay>, id: u64) -> int
    decreases s.len(),
{
    if s.len() == 0 {
        0
    } else {
        one_if_closing_id(s[0], id) + count_closing_id(s.drop_first(), id)
    }
}

/// 1 iff the step is the add intent.
pub open spec fn one_if_add(st: Step) -> int {
    if st is AddAction {
        1
    } else {
        0
    }
}

/// 1 iff the step is the close intent.
pub open spec fn one_if_close_action(st: Step) -> int {
    if st is CloseAction {
        1
    } else {
        0
    }
}

/// 1 iff the step is a spawn-completion notification, by either delivery
/// path.
pub open spec fn one_if_spawn_done(st: Step) -> int {
    match st {
        Step::Notify(Notification::SpawnCompletedResponse(_)) => 1,
        Step::Notify(Notification::SpawnCompletedCallback(_)) => 1,
        _ => 0,
    }
}

/// 1 iff the step is a close-completion notification.
pub open spec fn one_if_close_done(st: Step) -> int {
    match st {
        Step::Notify(Notification::CloseCompleted(_)) => 1,
        _ => 0,
    }
}

/// Number of add intents in a step sequence.
pub open spec fn count_adds(steps: Seq<Step>) -> int
    decreases steps.len(),
{
    if steps.len() == 0 {
        0
    } else {
        one_if_add(steps[0]) + count_adds(steps.drop_first())
    }
}

/// Number of close intents in a step sequence.
pub open spec fn count_close_actions(steps: Seq<Step>) -> int
    decreases steps.len(),
{
    if steps.len() == 0 {
        0
    } else {
        one_if_close_action(steps[0]) + count_close_actions(steps.drop_first())
    }
}

/// Number of spawn completions in a step sequence.
pub open spec fn count_spawn_done(steps: Seq<Step>) -> int
    decreases steps.len(),
{
    if steps.len() == 0 {
        0
    } else {
        one_if_spawn_done(steps[0]) + count_spawn_done(steps.drop_first())
    }
}

/// Number of close completions in a step sequence.
pub open spec fn count_close_done(steps: Seq<Step>) -> int
    decreases steps.len(),
{
    if steps.len() == 0 {
        0
    } else {
        one_if_close_done(steps[0]) + count_close_done(steps.drop_first())
    }
}

/// Appending an entry raises the count of its variant by one and no other.
proof fn lemma_counts_push(s: Seq<Overlay>, v: Overlay)
    ensures
        count_spawning(s.push(v)) == count_spawning(s) + one_if_spawning(v),
        count_live(s.push(v)) == count_live(s) + one_if_live(v),
        count_closing(s.push(v)) == count_closing(s) + one_if_closing(v),
    decreases s.len(),
{
    if s.len() == 0 {
        assert(s.push(v)[0] == v);
        assert(s.push(v).drop_first() =~= Seq::<Overlay>::empty());
        assert(count_spawning(Seq::<Overlay>::empty()) == 0);
        assert(count_live(Seq::<Overlay>::empty()) == 0);
        assert(count_closing(Seq::<Overlay>::empty()) == 0);
    } else {
        assert(s.push(v)[0] == s[0]);
        assert(s.push(v).drop_first() =~= s.drop_first().push(v));
        lemma_counts_push(s.drop_first(), v);
    }
}

/// Rewriting one entry in place exchanges its old variant's count for the
/// new one's and touches no other count.
proof fn lemma_counts_update(s: Seq<Overlay>, i: int, v: Overlay)
    requires
        0 <= i < s.len(),
    ensures
        count_spawning(s.update(i, v)) == count_spawning(s) - one_if_spawning(s[i])
            + one_if_spawning(v),
        count_live(s.update(i, v)) == count_live(s) - one_if_live(s[i]) + one_if_live(v),
        count_closing(s.update(i, v)) == count_closing(s) - one_if_closing(s[i]) + one_if_closing(
            v,
        ),
    decreases s.len(),
{
    if i == 0 {
        assert(s.update(0, v)[0] == v);
        assert(s.update(0, v).drop_first() =~= s.drop_first());
    } else {
        assert(s.update(i, v)[0] == s[0]);
        assert(s.update(i, v).drop_first() =~= s.drop_first().update(i - 1, v));
        lemma_counts_update(s.drop_first(), i - 1, v);
    }
}

/// Removing one entry lowers the count of its variant by one and no other.
proof fn lemma_counts_remove(s: Seq<Overlay>, i: int)
    requires
        0 <= i < s.len(),
    ensures
        count_spawning(s.remove(i)) == count_spawning(s) - one_if_spawning(s[i]),
        count_live(s.remove(i)) == count_live(s) - one_if_live(s[i]),
        count_closing(s.remove(i)) == count_closing(s) - one_if_closing(s[i]),
    decreases s.len(),
{
    if i == 0 {
        assert(s.remove(0) =~= s.drop_first());
    } else {
        assert(s.remove(i)[0] == s[0]);
        assert(s.remove(i).drop_first() =~= s.drop_first().remove(i - 1));
        lemma_counts_remove(s.drop_first(), i - 1);
    }
}

/// Removing one entry changes the `Closing(id)` count the same way.
proof fn lemma_count_closing_id_remove(s: Seq<Overlay>, id: u64, i: int)
    requires
        0 <= i < s.len(),
    ensures
        count_closing_id(s.remove(i), id) == count_closing_id(s, id) - one_if_closing_id(
            s[i],
            id,
        ),
    decreases s.len(),
{
    if i == 0 {
        assert(s.remove(0) =~= s.drop_first());
    } else {
        assert(s.remove(i)[0] == s[0]);
        assert(s.remove(i).drop_first() =~= s.drop_first().remove(i - 1));
        lemma_count_closing_id_remove(s.drop_first(), id, i - 1);
    }
}

/// A close completion finds a `Closing(id)` entry exactly when one is
/// present.
proof fn lemma_find_closing_count(s: Seq<Overlay>, id: u64)
    ensures
        (find_closing(s, id) is Some) <==> count_closing_id(s, id) > 0,
        count_closing_id(s, id) >= 0,
    decreases s.len(),
{
    if s.len() > 0 {
        lemma_find_closing_count(s.drop_first(), id);
    }
}

/// The displayed collection is exactly the confirmed history: after any
/// sequence of actions and notifications the loop accepts without halting,
/// the number of entries equals the adds not yet confirmed closed, the
/// `Spawning` entries are the adds whose spawn completion has not arrived,
/// the `Live` entries are the confirmed spawns not yet asked to close, and
/// the `Closing` entries are the close requests not yet confirmed closed.
pub proof fn lemma_lifecycle_counts(steps: Seq<Step>)
    requires
        replay(steps) is Ok,
    ensures
        ({
            let t = replay(steps)->Ok_0;
            &&& t.len() == count_adds(steps) - count_close_done(steps)
            &&& count_spawning(t) == count_adds(steps) - count_spawn_done(steps)
            &&& count_live(t) == count_spawn_done(steps) - count_close_actions(steps)
            &&& count_closing(t) == count_close_actions(steps) - count_close_done(steps)
        }),
{
    lemma_replay_from_counts(Seq::<Overlay>::empty(), steps);
}

/// The inductive form of `lemma_lifecycle_counts`, from any starting
/// collection.
proof fn lemma_replay_from_counts(s: Seq<Overlay>, steps: Seq<Step>)
    requires
        replay_from(s, steps) is Ok,
    ensures
        ({
            let t = replay_from(s, steps)->Ok_0;
            &&& t.len() == s.len() + count_adds(steps) - count_close_done(steps)
            &&& count_spawning(t) == count_spawning(s) + count_adds(steps) - count_spawn_done(
                steps,
            )
            &&& count_live(t) == count_live(s) + count_spawn_done(steps) - count_close_actions(
                steps,
            )
            &&& count_closing(t) == count_closing(s) + count_close_actions(steps)
                - count_close_done(steps)
        }),
    decreases steps.len(),
{
    if steps.len() > 0 {
        let st = steps[0];
        let s2 = apply_step(s, st)->Ok_0;
        match st {
            Step::AddAction => {
                lemma_counts_push(s, Overlay::Spawning);
            },
            Step::CloseAction(i) => {
                lemma_counts_update(s, i, Overlay::Closing(s[i]->Live_0));
            },
            Step::Notify(n) => {
                match n {
                    Notification::SpawnCompletedResponse(id) => {
                        lemma_counts_update(s, s.len() - 1, Overlay::Live(id));
                    },
                    Notification::SpawnCompletedCallback(id) => {
                        lemma_counts_update(s, s.len() - 1, Overlay::Live(id));
                    },
                    Notification::CloseCompleted(id) => {
                        lemma_find_closing(s, id);
                        lemma_counts_remove(s, find_closing(s, id)->Some_0);
                    },
                    _ => {},
                }
            },
        }
        lemma_replay_from_counts(s2, steps.drop_first());
    }
}

/// Applying the same close completion twice is not safe: the first
/// application removes the only `Closing(id)` entry, so the second finds no
/// match and is the fatal-inconsistency path, not a silent no-op.
pub proof fn lemma_close_completion_not_idempotent(s: Seq<Overlay>, id: u64)
    requires
        count_closing_id(s, id) == 1,
    ensures
        step(s, Notification::CloseCompleted(id)) is Ok,
        step(
            step(s, Notification::CloseCompleted(id))->Ok_0,
            Notification::CloseCompleted(id),
        ) == Err::<Seq<Overlay>, InvariantViolation>(InvariantViolation::NoMatchingClosing),
{
    lemma_find_closing_count(s, id);
    lemma_find_closing(s, id);
    let i = find_closing(s, id)->Some_0;
    let t = s.remove(i);
    lemma_count_closing_id_remove(s, id, i);
    lemma_find_closing_count(t, id);
}

/// Promotion always targets the last entry. When two spawn requests are
/// pending at once, the completion that arrives first therefore resolves
/// the most-recently-appended entry, leaving the first-issued request
/// `Spawning`, and a second completion then finds a non-`Spawning` last
/// entry and is fatal. So completions that do not arrive in request order
/// promote the wrong entry: the design assumes spawn requests are not
/// pipelined.
pub proof fn lemma_pipelined_spawns_resolve_last(s: Seq<Overlay>, first_id: u64, second_id: u64)
    requires
        s.len() >= 2,
        s[s.len() - 1] is Spawning,
        s[s.len() - 2] is Spawning,
    ensures
        step(s, Notification::SpawnCompletedResponse(first_id)) == Ok::<
            Seq<Overlay>,
            InvariantViolation,
        >(s.update(s.len() - 1, Overlay::Live(first_id))),
        s.update(s.len() - 1, Overlay::Live(first_id))[s.len() - 2] is Spawning,
        step(
            s.update(s.len() - 1, Overlay::Live(first_id)),
            Notification::SpawnCompletedResponse(second_id),
        ) == Err::<Seq<Overlay>, InvariantViolation>(InvariantViolation::LastNotSpawning),
{
}

} // verus!
