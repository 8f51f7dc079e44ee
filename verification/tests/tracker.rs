use std::cell::RefCell;

use lessons::tracker::quota_level_of;
use lessons::tracker::LimitTracker;
use lessons::tracker::Messenger;
use lessons::tracker::QuotaLevel;

struct MockMessenger {
    sent_messages: RefCell<Vec<String>>,
}

impl MockMessenger {
    fn new() -> MockMessenger {
        MockMessenger { sent_messages: RefCell::new(vec![]) }
    }
}

impl Messenger for MockMessenger {
    fn send(&self, message: &str) {
        self.sent_messages.borrow_mut().push(String::from(message));
    }
}

#[test]
fn it_sends_an_over_75_percent_warning_message() {
    let mock_messenger = MockMessenger::new();
    let mut limit_tracker = LimitTracker::new(&mock_messenger, 100);

    limit_tracker.set_value(80);

    assert_eq!(mock_messenger.sent_messages.borrow().len(), 1);
}

#[test]
fn over_quota_sends_error() {
    let mock_messenger = MockMessenger::new();
    let mut limit_tracker = LimitTracker::new(&mock_messenger, 100);

    limit_tracker.set_value(100);

    assert_eq!(
        vec![String::from("Error: You are over your quota!")],
        *mock_messenger.sent_messages.borrow()
    );
}

#[test]
fn low_value_stays_quiet() {
    let mock_messenger = MockMessenger::new();
    let mut limit_tracker = LimitTracker::new(&mock_messenger, 100);

    limit_tracker.set_value(50);

    assert_eq!(0, mock_messenger.sent_messages.borrow().len());
}

#[test]
fn quota_levels_at_thresholds() {
    assert_eq!(QuotaLevel::Over, quota_level_of(100, 100));
    assert_eq!(QuotaLevel::Urgent, quota_level_of(90, 100));
    assert_eq!(QuotaLevel::Warning, quota_level_of(75, 100));
    assert_eq!(QuotaLevel::Quiet, quota_level_of(74, 100));
    assert_eq!(QuotaLevel::Quiet, quota_level_of(0, 0));
    assert_eq!(QuotaLevel::Over, quota_level_of(1, 0));
}
