//! The event translator: decodes a raw notification batch into the ordered
//! sequence of typed events that is handed to the delivery channel.
//!
//! The translator neither drops, reorders nor invents notifications: the
//! event at position `i` of its output is exactly the decoding of the raw
//! notification at position `i` of its input.

use vstd::prelude::*;

use crate::event::{Event, EventView, RawNotification, RawNotificationView};
use crate::flags::has_flag;

verus! {

/// A raw event id can be decoded only when it fits the signed 64-bit id the
/// consumer-facing event carries.
pub open spec fn id_fits(r: RawNotificationView) -> bool {
    r.event_id <= i64::MAX
}

/// Decoding one raw notification: the id is read as a signed 64-bit integer,
/// the flag bitmask and the path are kept as they are.
pub open spec fn translate_one(r: RawNotificationView) -> EventView {
    EventView { event_id: r.event_id as i64, flag: r.flag, path: r.path }
}

/// Decoding a whole batch, position by position.
pub open spec fn translate_all(raw: Seq<RawNotificationView>) -> Seq<EventView> {
    raw.map_values(|r: RawNotificationView| translate_one(r))
}

/// True exactly when every id in the batch fits a signed 64-bit integer.
pub fn event_ids_fit(raw: &Vec<RawNotification>) -> (r: bool)
    ensures
        r == forall|i: int| 0 <= i < raw@.len() ==> id_fits(#[trigger] raw@[i]@),
{
    let mut i: usize = 0;
    while i < raw.len()
        invariant
            i <= raw@.len(),
            forall|j: int| 0 <= j < i ==> id_fits(#[trigger] raw@[j]@),
        decreases raw@.len() - i,
    {
        if raw[i].event_id > i64::MAX as u64 {
            proof {
                assert(!id_fits(raw@[i as int]@));
            }
            return false;
        }
        i += 1;
    }
    true
}

/// Decodes a raw batch into events, in arrival order, one event per raw
/// notification, copying each path into an owned string of the event's own.
pub fn translate_batch(raw: &Vec<RawNotification>) -> (out: Vec<Event>)
    requires
        forall|i: int| 0 <= i < raw@.len() ==> id_fits(#[trigger] raw@[i]@),
    ensures
        out@.len() == raw@.len(),
        forall|i: int| 0 <= i < raw@.len() ==> (#[trigger] out@[i])@ == translate_one(raw@[i]@),
{
    let mut out: Vec<Event> = Vec::new();
    let mut i: usize = 0;
    while i < raw.len()
        invariant
            i <= raw@.len(),
            out@.len() == i,
            forall|j: int| 0 <= j < raw@.len() ==> id_fits(#[trigger] raw@[j]@),
            forall|j: int| 0 <= j < i ==> (#[trigger] out@[j])@ == translate_one(raw@[j]@),
        decreases raw@.len() - i,
    {
        let r = &raw[i];
        let event = Event { event_id: r.event_id as i64, flag: r.flag, path: r.path.clone() };
        out.push(event);
        i += 1;
    }
    out
}

/// Translation keeps the facility's id order: a raw batch whose event ids
/// arrive non-decreasing is decoded into events whose ids are non-decreasing,
/// so the consumer observes the facility's monotonic cursor unchanged.
pub proof fn lemma_translate_keeps_id_order(raw: Seq<RawNotificationView>)
    requires
        forall|i: int| 0 <= i < raw.len() ==> id_fits(#[trigger] raw[i]),
        forall|i: int, j: int| 0 <= i <= j < raw.len() ==> raw[i].event_id <= raw[j].event_id,
    ensures
        forall|i: int, j: int| 0 <= i <= j < raw.len() ==>
            translate_all(raw)[i].event_id <= translate_all(raw)[j].event_id,
{
    assert forall|i: int, j: int| 0 <= i <= j < raw.len() implies
        translate_all(raw)[i].event_id <= translate_all(raw)[j].event_id by {
        assert(translate_all(raw)[i] == translate_one(raw[i]));
        assert(translate_all(raw)[j] == translate_one(raw[j]));
    }
}

/// Batches are decoded independently and in arrival order: decoding the
/// concatenation of two batches is the concatenation of their decodings. So
/// what holds of one decoded batch — the id order above, say — holds across
/// batch boundaries too, as long as the facility hands the batches over in
/// id order.
pub proof fn lemma_translate_splits_over_batches(
    a: Seq<RawNotificationView>,
    b: Seq<RawNotificationView>,
)
    ensures
        translate_all(a + b) == translate_all(a) + translate_all(b),
{
    assert(translate_all(a + b) =~= translate_all(a) + translate_all(b));
}

/// Translation keeps every flag bit: a raw notification that carries a bit
/// (the item-created bit, say) is decoded into an event that carries it too.
pub proof fn lemma_translate_keeps_flags(raw: Seq<RawNotificationView>, i: int, bit: u32)
    requires
        0 <= i < raw.len(),
        has_flag(raw[i].flag, bit),
    ensures
        has_flag(translate_all(raw)[i].flag, bit),
{
    assert(translate_all(raw)[i] == translate_one(raw[i]));
}

} // verus!
