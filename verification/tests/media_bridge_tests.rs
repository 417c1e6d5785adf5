use widget_overlay::actions::{media_action, ActionDispatch, MediaAction};
use widget_overlay::bridge::ManagerStore;
use widget_overlay::registry::{EventStore, SessionRegistry, SessionStore};

fn tokens(base: i64) -> EventStore {
    EventStore { metadata_token: base, playback_token: base + 1, timeline_token: base + 2 }
}

fn store(session: u64, base: i64) -> SessionStore {
    SessionStore { session, event_tokens: tokens(base) }
}

#[test]
fn attach_is_idempotent() {
    let mut registry = SessionRegistry::new();
    let spotify = String::from("spotify");

    // First poll: no entry yet, so the caller subscribes and records.
    assert!(!registry.contains_key(&spotify));
    registry.insert(spotify.clone(), store(1, 10));
    assert_eq!(registry.num_entries(), 1);

    // Second poll: the entry exists, so no second subscription is made and
    // the recorded tokens stay those of the first attach.
    assert!(registry.contains_key(&spotify));
    assert_eq!(registry.num_entries(), 1);
    let looked_up = registry.get(&spotify).unwrap();
    assert_eq!(looked_up, store(1, 10));
}

#[test]
fn detach_then_detach_never_errors() {
    let mut registry = SessionRegistry::new();
    let player = String::from("player");

    // Detaching an unknown player is a no-op.
    assert_eq!(registry.remove(&player), None);

    registry.insert(player.clone(), store(2, 20));
    let first = registry.remove(&player);
    assert_eq!(first, Some(store(2, 20)));

    // Detaching again is again a defined no-op.
    assert_eq!(registry.remove(&player), None);
    assert_eq!(registry.num_entries(), 0);
}

#[test]
fn reconciliation_is_complete() {
    let mut registry = SessionRegistry::new();
    let a = String::from("app.a");
    let b = String::from("app.b");
    let c = String::from("app.c");

    // First poll enumerates {A, B}.
    registry.insert(a.clone(), store(1, 100));
    registry.insert(b.clone(), store(2, 200));
    let detached = registry.reconcile(&vec![a.clone(), b.clone()]);
    assert!(detached.is_empty());
    assert_eq!(registry.num_entries(), 2);

    // Second poll enumerates {B, C}: B is already attached, C is new.
    assert!(registry.contains_key(&b));
    assert!(!registry.contains_key(&c));
    registry.insert(c.clone(), store(3, 300));
    let detached = registry.reconcile(&vec![b.clone(), c.clone()]);

    // A's tokens come back exactly once, and the registry holds exactly
    // {B, C}.
    assert_eq!(detached.len(), 1);
    assert_eq!(detached[0].player_id, a);
    assert_eq!(detached[0].store, store(1, 100));
    assert_eq!(registry.num_entries(), 2);
    assert!(registry.contains_key(&b));
    assert!(registry.contains_key(&c));
    assert!(!registry.contains_key(&a));

    // A further poll with the same set detaches nothing more: A is gone.
    let detached = registry.reconcile(&vec![b.clone(), c.clone()]);
    assert!(detached.is_empty());
}

#[test]
fn manager_resubscribes_without_leaking() {
    let mut manager = ManagerStore::new();
    assert!(!manager.is_initialized());
    manager.initialize(77);
    assert!(manager.is_initialized());
    assert_eq!(manager.manager_handle(), Some(77));

    // First poll: nothing to cancel, two live tokens afterwards.
    let cancelled = manager.ensure_manager_subscriptions(1, 2);
    assert!(cancelled.is_empty());
    let store = manager.manager.unwrap();
    assert_eq!(store.session_token, Some(1));
    assert_eq!(store.current_session_token, Some(2));

    // Second poll: exactly the first poll's pair is handed back for
    // cancellation, and exactly the new pair is live — never a third.
    let cancelled = manager.ensure_manager_subscriptions(3, 4);
    assert_eq!(cancelled, vec![1, 2]);
    let store = manager.manager.unwrap();
    assert_eq!(store.session_token, Some(3));
    assert_eq!(store.current_session_token, Some(4));
}

#[test]
fn action_on_vanished_session_is_success() {
    let mut registry = SessionRegistry::new();
    registry.insert(String::from("alive"), store(5, 50));

    let dispatch = media_action(
        &registry,
        &String::from("gone-id"),
        &String::from("play"),
        None,
    );
    assert_eq!(dispatch, ActionDispatch::NoEffect);

    // The registry is left unchanged.
    assert_eq!(registry.num_entries(), 1);
    assert!(registry.contains_key(&String::from("alive")));
}

#[test]
fn actions_dispatch_against_the_stored_session() {
    let mut registry = SessionRegistry::new();
    let id = String::from("player");
    registry.insert(id.clone(), store(9, 90));

    let play = media_action(&registry, &id, &String::from("play"), None);
    assert_eq!(play, ActionDispatch::Command { session: 9, action: MediaAction::Play });

    let pause = media_action(&registry, &id, &String::from("pause"), None);
    assert_eq!(pause, ActionDispatch::Command { session: 9, action: MediaAction::Pause });

    let next = media_action(&registry, &id, &String::from("next"), None);
    assert_eq!(next, ActionDispatch::Command { session: 9, action: MediaAction::Next });

    let prev = media_action(&registry, &id, &String::from("prev"), None);
    assert_eq!(prev, ActionDispatch::Command { session: 9, action: MediaAction::Prev });

    // A seek position is converted from milliseconds to 100ns ticks.
    let seek = media_action(&registry, &id, &String::from("position"), Some(90_000));
    assert_eq!(
        seek,
        ActionDispatch::Command { session: 9, action: MediaAction::Position(900_000_000) }
    );

    // A seek without a position, or an unrecognized action, does nothing.
    let no_pos = media_action(&registry, &id, &String::from("position"), None);
    assert_eq!(no_pos, ActionDispatch::NoEffect);
    let unknown = media_action(&registry, &id, &String::from("rewind"), None);
    assert_eq!(unknown, ActionDispatch::NoEffect);
}
