use fsevents_bridge::event::RawNotification;
use fsevents_bridge::flags::{
    flag_is_set, FLAG_ITEM_CREATED, FLAG_ITEM_IS_FILE, FLAG_ITEM_MODIFIED, SINCE_NOW,
};
use fsevents_bridge::translate::{event_ids_fit, translate_batch};

fn raw(flag: u32, event_id: u64, path: &str) -> RawNotification {
    RawNotification { flag, event_id, path: path.to_string() }
}

#[test]
fn one_notification_translates_exactly() {
    let batch = vec![raw(FLAG_ITEM_CREATED | FLAG_ITEM_IS_FILE, 42, "/tmp/d/a.txt")];
    let events = translate_batch(&batch);
    assert_eq!(events.len(), 1);
    assert_eq!(events[0].event_id, 42);
    assert_eq!(events[0].flag, FLAG_ITEM_CREATED | FLAG_ITEM_IS_FILE);
    assert_eq!(events[0].path, "/tmp/d/a.txt");
}

#[test]
fn creation_carries_the_item_created_bit() {
    let batch = vec![raw(FLAG_ITEM_CREATED | FLAG_ITEM_IS_FILE, 7, "/tmp/d/a.txt")];
    let events = translate_batch(&batch);
    assert!(flag_is_set(events[0].flag, FLAG_ITEM_CREATED));
    assert!(!flag_is_set(events[0].flag, FLAG_ITEM_MODIFIED));
}

#[test]
fn batch_order_and_ids_are_kept() {
    let batch = vec![
        raw(FLAG_ITEM_CREATED, 5, "/w/a"),
        raw(FLAG_ITEM_MODIFIED, 5, "/w/a"),
        raw(FLAG_ITEM_MODIFIED, 9, "/w/b"),
    ];
    let events = translate_batch(&batch);
    assert_eq!(events.len(), 3);
    let ids: Vec<i64> = events.iter().map(|e| e.event_id).collect();
    assert_eq!(ids, vec![5, 5, 9]);
    // Non-decreasing, as the facility's monotonic cursor demands.
    for w in ids.windows(2) {
        assert!(w[0] <= w[1]);
    }
    assert_eq!(events[0].path, "/w/a");
    assert_eq!(events[2].path, "/w/b");
}

#[test]
fn empty_batch_translates_to_nothing() {
    let batch: Vec<RawNotification> = Vec::new();
    assert!(event_ids_fit(&batch));
    assert_eq!(translate_batch(&batch).len(), 0);
}

#[test]
fn ids_fit_detects_the_largest_id() {
    let ok = vec![raw(0, i64::MAX as u64, "/w/a")];
    assert!(event_ids_fit(&ok));

    // The facility's "since now" sentinel is all ones and does not fit a
    // signed id.
    let sentinel = vec![raw(0, SINCE_NOW as u64, "/w/a")];
    assert!(!event_ids_fit(&sentinel));

    let too_big = vec![raw(0, i64::MAX as u64 + 1, "/w/a")];
    assert!(!event_ids_fit(&too_big));
}
