use thanatos_logic::recency::{BackgroundRecency, DEFAULT_CAPACITY};

fn names(tracker: &BackgroundRecency) -> Vec<String> {
    tracker.names()
}

#[test]
fn new_tracker_is_empty_with_default_capacity() {
    let tracker = BackgroundRecency::new();
    assert_eq!(tracker.len(), 0);
    assert_eq!(tracker.capacity(), 100);
    assert_eq!(DEFAULT_CAPACITY, 100);
    assert!(names(&tracker).is_empty());
}

#[test]
fn touch_puts_most_recent_first() {
    let mut tracker = BackgroundRecency::new();
    tracker.touch("com.a");
    tracker.touch("com.b");
    tracker.touch("com.c");
    assert_eq!(names(&tracker), vec!["com.c", "com.b", "com.a"]);
}

#[test]
fn touch_moves_existing_name_to_head_without_duplicate() {
    let mut tracker = BackgroundRecency::new();
    tracker.touch("com.a");
    tracker.touch("com.b");
    tracker.touch("com.c");
    tracker.touch("com.a");
    assert_eq!(names(&tracker), vec!["com.a", "com.c", "com.b"]);
    tracker.touch("com.a");
    assert_eq!(names(&tracker), vec!["com.a", "com.c", "com.b"]);
    assert_eq!(tracker.len(), 3);
}

#[test]
fn touch_beyond_capacity_evicts_least_recent() {
    let mut tracker = BackgroundRecency::with_capacity(3);
    tracker.touch("one");
    tracker.touch("two");
    tracker.touch("three");
    tracker.touch("four");
    assert_eq!(names(&tracker), vec!["four", "three", "two"]);
    assert_eq!(tracker.position_of("one"), None);
}

#[test]
fn default_capacity_keeps_one_hundred_names() {
    let mut tracker = BackgroundRecency::new();
    for i in 0..101 {
        tracker.touch(&format!("pkg{}", i));
    }
    assert_eq!(tracker.len(), 100);
    assert_eq!(tracker.position_of("pkg100"), Some(0));
    assert_eq!(tracker.position_of("pkg1"), Some(99));
    assert_eq!(tracker.position_of("pkg0"), None);
}

#[test]
fn touching_at_full_capacity_an_existing_name_evicts_nothing() {
    let mut tracker = BackgroundRecency::with_capacity(2);
    tracker.touch("a");
    tracker.touch("b");
    tracker.touch("a");
    assert_eq!(names(&tracker), vec!["a", "b"]);
}

#[test]
fn zero_capacity_keeps_nothing() {
    let mut tracker = BackgroundRecency::with_capacity(0);
    tracker.touch("a");
    assert_eq!(tracker.len(), 0);
    assert_eq!(tracker.position_or_last("a"), 0);
}

#[test]
fn position_of_counts_from_most_recent() {
    let mut tracker = BackgroundRecency::new();
    tracker.touch("com.a");
    tracker.touch("com.b");
    assert_eq!(tracker.position_of("com.b"), Some(0));
    assert_eq!(tracker.position_of("com.a"), Some(1));
    assert_eq!(tracker.position_of("com.z"), None);
}

#[test]
fn position_or_last_treats_absent_as_last() {
    let mut tracker = BackgroundRecency::new();
    tracker.touch("com.a");
    tracker.touch("com.b");
    assert_eq!(tracker.position_or_last("com.a"), 1);
    assert_eq!(tracker.position_or_last("com.z"), 2);
}

#[test]
fn least_recent_lists_oldest_first() {
    let mut tracker = BackgroundRecency::new();
    for name in ["a", "b", "c", "d", "e"] {
        tracker.touch(name);
    }
    assert_eq!(tracker.least_recent(3), vec!["a", "b", "c"]);
    assert_eq!(tracker.least_recent(0), Vec::<String>::new());
    assert_eq!(tracker.least_recent(9), vec!["a", "b", "c", "d", "e"]);
}
