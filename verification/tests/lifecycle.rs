use overlay_lifecycle::collection::AppData;
use overlay_lifecycle::dispatch::add_overlay;
use overlay_lifecycle::dispatch::close_overlay;
use overlay_lifecycle::dispatch::reconfigure;
use overlay_lifecycle::dispatch::RuntimeCall;
use overlay_lifecycle::dispatch::WebContents;
use overlay_lifecycle::overlay::Overlay;
use overlay_lifecycle::router::route;
use overlay_lifecycle::router::InvariantViolation;
use overlay_lifecycle::router::Notification;

#[test]
fn predicates_and_accessors_are_consistent() {
    let spawning = Overlay::Spawning;
    assert!(!spawning.is_alive());
    assert!(!spawning.is_closing());
    assert_eq!(spawning.get_alive(), None);
    assert_eq!(spawning.get_closing(), None);

    let live = Overlay::Live(7);
    assert!(live.is_alive());
    assert!(!live.is_closing());
    assert_eq!(live.get_alive(), Some(7));
    assert_eq!(live.get_closing(), None);

    let closing = Overlay::Closing(7);
    assert!(!closing.is_alive());
    assert!(closing.is_closing());
    assert_eq!(closing.get_alive(), None);
    assert_eq!(closing.get_closing(), Some(7));
}

#[test]
fn add_then_spawn_completion_gives_one_live() {
    let mut data = AppData::new();
    let call = add_overlay(&mut data);
    assert_eq!(call, RuntimeCall::Spawn);
    assert_eq!(data.overlays, vec![Overlay::Spawning]);

    let r = route(&mut data, Notification::SpawnCompletedResponse(7));
    assert_eq!(r, Ok(()));
    assert_eq!(data.overlays, vec![Overlay::Live(7)]);
}

#[test]
fn close_action_marks_closing_and_issues_close() {
    let mut data = AppData { overlays: vec![Overlay::Live(7)] };
    let r = close_overlay(&mut data, 0);
    assert_eq!(r, Ok(RuntimeCall::Close(7)));
    assert_eq!(data.overlays, vec![Overlay::Closing(7)]);
}

#[test]
fn close_completion_removes_the_closing_entry() {
    let mut data = AppData { overlays: vec![Overlay::Closing(7)] };
    let r = route(&mut data, Notification::CloseCompleted(7));
    assert_eq!(r, Ok(()));
    assert_eq!(data.overlays, vec![]);
}

#[test]
fn spawn_completion_promotes_the_last_entry() {
    let mut data = AppData::new();
    add_overlay(&mut data);
    add_overlay(&mut data);
    assert_eq!(data.overlays, vec![Overlay::Spawning, Overlay::Spawning]);

    let r = route(&mut data, Notification::SpawnCompletedResponse(3));
    assert_eq!(r, Ok(()));
    assert_eq!(data.overlays, vec![Overlay::Spawning, Overlay::Live(3)]);
}

#[test]
fn spawn_completion_by_callback_promotes_too() {
    let mut data = AppData::new();
    add_overlay(&mut data);
    let r = route(&mut data, Notification::SpawnCompletedCallback(9));
    assert_eq!(r, Ok(()));
    assert_eq!(data.overlays, vec![Overlay::Live(9)]);
}

#[test]
fn reconfigure_on_spawning_is_an_invariant_violation() {
    let mut data = AppData::new();
    add_overlay(&mut data);
    let r = reconfigure(&data, 0, 400, 500, "https://example.org/".to_string());
    assert_eq!(r, Err(InvariantViolation::NotAlive));
    assert_eq!(data.overlays, vec![Overlay::Spawning]);
}

#[test]
fn reconfigure_on_live_builds_the_payload() {
    let data = AppData { overlays: vec![Overlay::Live(7)] };
    let url = "https://www.twitch.tv/popout/swfsql/chat?popout=".to_string();
    let r = reconfigure(&data, 0, 400, 500, url.clone());
    assert_eq!(
        r,
        Ok(RuntimeCall::SetContentsWebsite(
            7,
            WebContents { width: 400, height: 500, url }
        ))
    );
}

#[test]
fn close_on_non_alive_is_an_invariant_violation() {
    let mut data = AppData { overlays: vec![Overlay::Closing(7)] };
    let r = close_overlay(&mut data, 0);
    assert_eq!(r, Err(InvariantViolation::NotAlive));
    assert_eq!(data.overlays, vec![Overlay::Closing(7)]);
}

#[test]
fn unrecognized_notifications_leave_the_collection_unchanged() {
    let mut data = AppData { overlays: vec![Overlay::Live(7), Overlay::Spawning] };
    for n in [
        Notification::Feedback,
        Notification::OtherEvent,
        Notification::OtherCallback,
    ] {
        let r = route(&mut data, n);
        assert_eq!(r, Ok(()));
        assert_eq!(data.overlays, vec![Overlay::Live(7), Overlay::Spawning]);
    }
}

#[test]
fn second_close_completion_is_fatal_not_ignored() {
    let mut data = AppData { overlays: vec![Overlay::Closing(7)] };
    assert_eq!(route(&mut data, Notification::CloseCompleted(7)), Ok(()));
    let second = route(&mut data, Notification::CloseCompleted(7));
    assert_eq!(second, Err(InvariantViolation::NoMatchingClosing));
    assert_eq!(data.overlays, vec![]);
}

#[test]
fn pipelined_spawn_completions_resolve_the_last_entry_then_halt() {
    // Two spawn requests are pending at once; the completion that arrives
    // first promotes the most-recently-appended entry, not the first-issued
    // one, and the second completion then finds a non-Spawning last entry.
    let mut data = AppData::new();
    add_overlay(&mut data);
    add_overlay(&mut data);

    assert_eq!(route(&mut data, Notification::SpawnCompletedResponse(5)), Ok(()));
    assert_eq!(data.overlays, vec![Overlay::Spawning, Overlay::Live(5)]);

    let second = route(&mut data, Notification::SpawnCompletedResponse(6));
    assert_eq!(second, Err(InvariantViolation::LastNotSpawning));
    assert_eq!(data.overlays, vec![Overlay::Spawning, Overlay::Live(5)]);
}

#[test]
fn spawn_completion_without_a_pending_spawn_is_fatal() {
    let mut data = AppData::new();
    let r = route(&mut data, Notification::SpawnCompletedResponse(1));
    assert_eq!(r, Err(InvariantViolation::LastNotSpawning));

    let mut data = AppData { overlays: vec![Overlay::Live(2)] };
    let r = route(&mut data, Notification::SpawnCompletedResponse(1));
    assert_eq!(r, Err(InvariantViolation::LastNotSpawning));
    assert_eq!(data.overlays, vec![Overlay::Live(2)]);
}

#[test]
fn close_completion_without_a_match_is_fatal() {
    let mut data = AppData { overlays: vec![Overlay::Live(7)] };
    let r = route(&mut data, Notification::CloseCompleted(7));
    assert_eq!(r, Err(InvariantViolation::NoMatchingClosing));
    assert_eq!(data.overlays, vec![Overlay::Live(7)]);
}

#[test]
fn close_completion_removes_the_first_matching_closing_entry() {
    let mut data = AppData {
        overlays: vec![
            Overlay::Live(1),
            Overlay::Closing(7),
            Overlay::Spawning,
            Overlay::Closing(7),
        ],
    };
    let r = route(&mut data, Notification::CloseCompleted(7));
    assert_eq!(r, Ok(()));
    assert_eq!(
        data.overlays,
        vec![Overlay::Live(1), Overlay::Spawning, Overlay::Closing(7)]
    );
}

#[test]
fn close_completion_matches_the_identifier_not_just_any_closing() {
    let mut data = AppData { overlays: vec![Overlay::Closing(3), Overlay::Closing(7)] };
    let r = route(&mut data, Notification::CloseCompleted(7));
    assert_eq!(r, Ok(()));
    assert_eq!(data.overlays, vec![Overlay::Closing(3)]);
}

#[test]
fn confirmed_history_matches_the_displayed_collection() {
    // A realistic interleaving of actions and completions: every displayed
    // entry reflects exactly the confirmed (not merely requested)
    // transitions.
    let mut data = AppData::new();

    add_overlay(&mut data);
    assert_eq!(route(&mut data, Notification::SpawnCompletedResponse(1)), Ok(()));
    add_overlay(&mut data);
    assert_eq!(route(&mut data, Notification::Feedback), Ok(()));
    assert_eq!(route(&mut data, Notification::SpawnCompletedCallback(2)), Ok(()));
    assert_eq!(data.overlays, vec![Overlay::Live(1), Overlay::Live(2)]);

    assert_eq!(close_overlay(&mut data, 0), Ok(RuntimeCall::Close(1)));
    add_overlay(&mut data);
    assert_eq!(
        data.overlays,
        vec![Overlay::Closing(1), Overlay::Live(2), Overlay::Spawning]
    );

    assert_eq!(route(&mut data, Notification::CloseCompleted(1)), Ok(()));
    assert_eq!(route(&mut data, Notification::SpawnCompletedResponse(3)), Ok(()));
    assert_eq!(data.overlays, vec![Overlay::Live(2), Overlay::Live(3)]);

    // Three adds, one confirmed close: two entries remain; both spawns that
    // completed are alive, nothing is closing.
    assert_eq!(data.len(), 2);
    assert!(data.get(0).is_alive() && data.get(1).is_alive());
    assert!(!data.get(0).is_closing() && !data.get(1).is_closing());
}
