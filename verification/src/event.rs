//! The application-level event and the raw notification it is decoded from.

use vstd::prelude::*;

verus! {

/// One raw notification as the OS facility hands it over: a flag bitmask,
/// a 64-bit monotonic event id, and the affected path, already copied out of
/// the facility's ephemeral batch buffer into an owned string.
#[derive(Debug, Clone)]
pub struct RawNotification {
    pub flag: u32,
    pub event_id: u64,
    pub path: String,
}

/// The mathematical value of a raw notification.
pub ghost struct RawNotificationView {
    pub flag: u32,
    pub event_id: u64,
    pub path: Seq<char>,
}

impl View for RawNotification {
    type V = RawNotificationView;

    open spec fn view(&self) -> RawNotificationView {
        RawNotificationView { flag: self.flag, event_id: self.event_id, path: self.path@ }
    }
}

/// One filesystem change as the consumer sees it: an immutable value with a
/// signed 64-bit event id, the flag bitmask, and an owned path.
#[derive(Debug, Clone)]
pub struct Event {
    pub event_id: i64,
    pub flag: u32,
    pub path: String,
}

/// The mathematical value of an event.
pub ghost struct EventView {
    pub event_id: i64,
    pub flag: u32,
    pub path: Seq<char>,
}

impl View for Event {
    type V = EventView;

    open spec fn view(&self) -> EventView {
        EventView { event_id: self.event_id, flag: self.flag, path: self.path@ }
    }
}

} // verus!
