use thanatos_logic::state_store::{
    background_entries_of, count_frozen_entries, first_guarded_entry, AppState, RuntimeStateStore,
};

fn sorted(mut entries: Vec<(String, AppState)>) -> Vec<(String, i32)> {
    entries.sort_by(|a, b| a.0.cmp(&b.0));
    entries.into_iter().map(|(name, state)| (name, state.pid())).collect()
}

#[test]
fn pid_of_each_variant() {
    assert_eq!(AppState::Foreground(1).pid(), 1);
    assert_eq!(AppState::Background(2).pid(), 2);
    assert_eq!(AppState::Frozen(3).pid(), 3);
    assert_eq!(AppState::TemporarilyUnfrozen { pid: 4, refreeze_timer_id: 9 }.pid(), 4);
}

#[test]
fn guarded_by_matches_only_the_timer_of_a_temporary_exemption() {
    let state = AppState::TemporarilyUnfrozen { pid: 4, refreeze_timer_id: 9 };
    assert!(state.guarded_by(9));
    assert!(!state.guarded_by(8));
    assert!(!AppState::Frozen(4).guarded_by(9));
    assert!(!AppState::Foreground(9).guarded_by(9));
}

#[test]
fn new_store_tracks_nothing() {
    let store = RuntimeStateStore::new();
    assert_eq!(store.len(), 0);
    assert_eq!(store.get("com.a"), None);
    assert!(store.snapshot().is_empty());
    assert_eq!(store.frozen_count(), 0);
}

#[test]
fn upsert_then_get_returns_the_state() {
    let mut store = RuntimeStateStore::new();
    assert!(store.upsert("com.a", AppState::Foreground(100)));
    assert_eq!(store.get("com.a"), Some(AppState::Foreground(100)));
    assert_eq!(store.get("com.b"), None);
    assert_eq!(store.len(), 1);
}

#[test]
fn upsert_replaces_so_a_package_has_one_state() {
    let mut store = RuntimeStateStore::new();
    store.upsert("com.a", AppState::Foreground(100));
    store.upsert("com.a", AppState::Background(101));
    assert_eq!(store.get("com.a"), Some(AppState::Background(101)));
    assert_eq!(store.len(), 1);
    assert_eq!(store.snapshot().len(), 1);
}

#[test]
fn upsert_ignores_empty_name_and_non_positive_pid() {
    let mut store = RuntimeStateStore::new();
    assert!(!store.upsert("", AppState::Foreground(100)));
    assert!(!store.upsert("com.a", AppState::Foreground(0)));
    assert!(!store.upsert("com.a", AppState::Frozen(-5)));
    assert_eq!(store.len(), 0);
    assert_eq!(store.get("com.a"), None);
}

#[test]
fn update_if_applies_only_on_expected_state() {
    let mut store = RuntimeStateStore::new();
    store.upsert("com.a", AppState::Background(100));
    assert!(!store.update_if("com.a", AppState::Frozen(100), AppState::Foreground(100)));
    assert_eq!(store.get("com.a"), Some(AppState::Background(100)));
    assert!(store.update_if("com.a", AppState::Background(100), AppState::Frozen(100)));
    assert_eq!(store.get("com.a"), Some(AppState::Frozen(100)));
}

#[test]
fn update_if_on_untracked_package_does_nothing() {
    let mut store = RuntimeStateStore::new();
    assert!(!store.update_if("com.a", AppState::Background(100), AppState::Frozen(100)));
    assert_eq!(store.get("com.a"), None);
    assert_eq!(store.len(), 0);
}

#[test]
fn update_if_refuses_non_positive_pid() {
    let mut store = RuntimeStateStore::new();
    store.upsert("com.a", AppState::Background(100));
    assert!(!store.update_if("com.a", AppState::Background(100), AppState::Frozen(0)));
    assert_eq!(store.get("com.a"), Some(AppState::Background(100)));
}

#[test]
fn snapshot_lists_every_package_once() {
    let mut store = RuntimeStateStore::new();
    store.upsert("com.a", AppState::Background(1));
    store.upsert("com.b", AppState::Frozen(2));
    store.upsert("com.c", AppState::Foreground(3));
    store.upsert("com.b", AppState::Frozen(4));
    assert_eq!(
        sorted(store.snapshot()),
        vec![("com.a".to_string(), 1), ("com.b".to_string(), 4), ("com.c".to_string(), 3)]
    );
    assert_eq!(store.len(), 3);
}

#[test]
fn frozen_count_counts_frozen_packages_only() {
    let mut store = RuntimeStateStore::new();
    store.upsert("com.a", AppState::Background(1));
    store.upsert("com.b", AppState::Frozen(2));
    store.upsert("com.c", AppState::Frozen(3));
    store.upsert("com.d", AppState::TemporarilyUnfrozen { pid: 4, refreeze_timer_id: 1 });
    assert_eq!(store.frozen_count(), 2);
}

#[test]
fn many_packages_are_all_kept() {
    let mut store = RuntimeStateStore::new();
    for i in 1..=500 {
        store.upsert(&format!("pkg{}", i), AppState::Frozen(i));
    }
    assert_eq!(store.len(), 500);
    assert_eq!(store.frozen_count(), 500);
    assert_eq!(store.get("pkg250"), Some(AppState::Frozen(250)));
}

fn listing() -> Vec<(String, AppState)> {
    vec![
        ("a".to_string(), AppState::Background(1)),
        ("b".to_string(), AppState::Frozen(2)),
        ("c".to_string(), AppState::TemporarilyUnfrozen { pid: 3, refreeze_timer_id: 7 }),
        ("d".to_string(), AppState::Background(4)),
        ("e".to_string(), AppState::TemporarilyUnfrozen { pid: 5, refreeze_timer_id: 7 }),
        ("f".to_string(), AppState::Frozen(6)),
        ("g".to_string(), AppState::Frozen(7)),
    ]
}

#[test]
fn count_frozen_entries_of_a_listing() {
    assert_eq!(count_frozen_entries(&listing()), 3);
    assert_eq!(count_frozen_entries(&Vec::new()), 0);
}

#[test]
fn background_entries_keep_their_order() {
    assert_eq!(
        background_entries_of(&listing()),
        vec![("a".to_string(), AppState::Background(1)), ("d".to_string(), AppState::Background(4))]
    );
}

#[test]
fn first_guarded_entry_is_the_first_match() {
    assert_eq!(first_guarded_entry(&listing(), 7), Some(2));
    assert_eq!(first_guarded_entry(&listing(), 8), None);
}
