use save_on_write::{HashListener, OnChange};

struct Noop;

impl OnChange<i32> for Noop {
    fn on_change(&mut self, _item: &mut i32) {}
}

/// Counts invocations and remembers the value each one received.
struct Recorder {
    calls: usize,
    last: Option<i32>,
}

impl OnChange<i32> for Recorder {
    fn on_change(&mut self, item: &mut i32) {
        self.calls += 1;
        self.last = Some(*item);
    }
}

#[test]
pub fn has_changed() {
    let a = 5;
    let notifier = HashListener::new(a, Noop);
    {
        let b = notifier.lock();
        let _ = *b.read() + 5;
        assert!(b.detected_change() == false);
    }
}

#[test]
fn read_only_access_never_fires() {
    let listener = HashListener::new(7, Recorder { calls: 0, last: None });
    let lck = listener.lock();
    assert!(!lck.detected_change());
    assert_eq!(*lck.read(), 7);
    assert!(!lck.detected_possible_change());
    assert!(!lck.detected_change());
    assert_eq!(*lck.read(), 7);
    assert!(!lck.detected_change());
    let (listener, fired) = lck.close();
    assert!(!fired);
    let (value, recorder) = listener.into_parts();
    assert_eq!(value, 7);
    assert_eq!(recorder.calls, 0);
    assert_eq!(recorder.last, None);
}

#[test]
fn writing_the_same_content_does_not_fire() {
    let listener = HashListener::new(7, Recorder { calls: 0, last: None });
    let mut lck = listener.lock();
    *lck.get_mut() = 7;
    assert!(lck.detected_possible_change());
    assert!(!lck.detected_change());
    let (listener, fired) = lck.close();
    assert!(!fired);
    let (value, recorder) = listener.into_parts();
    assert_eq!(value, 7);
    assert_eq!(recorder.calls, 0);
}

#[test]
fn real_change_fires_exactly_once_with_current_value() {
    let listener = HashListener::new(7, Recorder { calls: 0, last: None });
    let mut lck = listener.lock();
    *lck.get_mut() = -3;
    assert!(lck.detected_possible_change());
    assert!(lck.detected_change());
    let (listener, fired) = lck.close();
    assert!(fired);
    let (value, recorder) = listener.into_parts();
    assert_eq!(value, -3);
    assert_eq!(recorder.calls, 1);
    assert_eq!(recorder.last, Some(-3));
}

#[test]
fn repeated_idle_locks_never_fire() {
    let mut listener = HashListener::new(11, Recorder { calls: 0, last: None });
    for _ in 0..5 {
        let lck = listener.lock();
        let (back, fired) = lck.close();
        assert!(!fired);
        listener = back;
    }
    let (value, recorder) = listener.into_parts();
    assert_eq!(value, 11);
    assert_eq!(recorder.calls, 0);
}

struct StringRecorder {
    calls: usize,
}

impl OnChange<String> for StringRecorder {
    fn on_change(&mut self, _item: &mut String) {
        self.calls += 1;
    }
}

#[test]
fn mutated_then_restored_string_does_not_fire() {
    let listener = HashListener::new("Joe".to_string(), StringRecorder { calls: 0 });
    let mut lck = listener.lock();
    lck.get_mut().push('!');
    lck.get_mut().pop();
    assert!(lck.detected_possible_change());
    assert!(!lck.detected_change());
    let (listener, fired) = lck.close();
    assert!(!fired);
    let (value, recorder) = listener.into_parts();
    assert_eq!(value, "Joe");
    assert_eq!(recorder.calls, 0);
}

#[test]
fn grown_string_fires() {
    let listener = HashListener::new("Joe".to_string(), StringRecorder { calls: 0 });
    let mut lck = listener.lock();
    lck.get_mut().push_str("y");
    assert!(lck.detected_change());
    let (listener, fired) = lck.close();
    assert!(fired);
    let (value, recorder) = listener.into_parts();
    assert_eq!(value, "Joey");
    assert_eq!(recorder.calls, 1);
}

#[test]
fn change_and_restore_across_two_locks() {
    // A change in one lock fires once; restoring the old content in a
    // second lock is itself a change and fires again.
    let listener = HashListener::new(1, Recorder { calls: 0, last: None });
    let mut lck = listener.lock();
    *lck.get_mut() = 2;
    let (listener, fired) = lck.close();
    assert!(fired);
    let mut lck = listener.lock();
    *lck.get_mut() = 1;
    assert!(lck.detected_change());
    let (listener, fired) = lck.close();
    assert!(fired);
    let (value, recorder) = listener.into_parts();
    assert_eq!(value, 1);
    assert_eq!(recorder.calls, 2);
    assert_eq!(recorder.last, Some(1));
}
