//! The background poller's schedule.
//!
//! For the lifetime of the process, at a fixed interval, the hub
//! broadcasts `Lock`, refreshes the store from hardware, broadcasts
//! `Unlock`, and broadcasts a snapshot of the store — the refreshed state
//! when the refresh succeeded, the previous state otherwise.  A failed
//! refresh is logged and swallowed: clients keep receiving the best-known
//! state on schedule, and the loop never dies.

use vstd::prelude::*;

use crate::model::{RTU, RtuView};
use crate::outgoing_event::{
    OutgoingEvent, OutgoingEventType, OutgoingEventView, count_events, spec_lock,
    spec_rtu_snapshot, spec_unlock,
};

verus! {

/// The models of a sequence of outgoing events.
pub open spec fn event_views(s: Seq<OutgoingEvent>) -> Seq<OutgoingEventView> {
    s.map_values(|e: OutgoingEvent| e@)
}

/// The broadcast schedule of one poll iteration, given the store contents
/// after the refresh attempt: `Lock` before the refresh, then `Unlock`,
/// then the snapshot.
pub open spec fn spec_poll_cycle(rtu: RtuView) -> Seq<OutgoingEventView> {
    seq![spec_lock(), spec_unlock(), spec_rtu_snapshot(rtu)]
}

/// The broadcast that opens a poll iteration, before the store is touched.
pub fn poll_begin() -> (r: OutgoingEvent)
    ensures
        forall|rtu: RtuView| r@ == #[trigger] spec_poll_cycle(rtu)[0],
        r@ == spec_lock(),
{
    OutgoingEvent::lock()
}

/// The broadcasts that close a poll iteration, once the refresh attempt is
/// over: `Unlock`, then the snapshot of the store as it now stands.
pub fn poll_finish(rtu: &RTU) -> (r: Vec<OutgoingEvent>)
    ensures
        event_views(r@) == spec_poll_cycle(rtu@).drop_first(),
{
    let mut r: Vec<OutgoingEvent> = Vec::new();
    r.push(OutgoingEvent::unlock());
    r.push(OutgoingEvent::rtu(rtu));
    proof {
        assert(event_views(r@) =~= spec_poll_cycle(rtu@).drop_first());
    }
    r
}

/// Law: each poll iteration broadcasts exactly one `Lock` and exactly one
/// `Unlock`; the `Lock` comes first, and the only snapshot of the
/// iteration comes after the `Unlock` — never between the store mutation
/// and the `Unlock`.
pub proof fn lemma_poll_cycle_lock_unlock(rtu: RtuView)
    ensures
        ({
            let c = spec_poll_cycle(rtu);
            c.len() == 3 && c[0] == spec_lock() && c[1] == spec_unlock() && c[2]
                == spec_rtu_snapshot(rtu) && count_events(c, OutgoingEventType::Lock) == 1
                && count_events(c, OutgoingEventType::Unlock) == 1 && (forall|i: int|
                0 <= i < c.len() && (#[trigger] c[i]).response_type
                    == OutgoingEventType::RTUSnapshot ==> i == 2)
        }),
{
    let c = spec_poll_cycle(rtu);
    let c2 = c.drop_last();
    let c1 = c2.drop_last();
    let c0 = c1.drop_last();
    assert(c2 =~= seq![spec_lock(), spec_unlock()]);
    assert(c1 =~= seq![spec_lock()]);
    assert(c0 =~= Seq::<OutgoingEventView>::empty());
    assert(count_events(c0, OutgoingEventType::Lock) == 0);
    assert(count_events(c0, OutgoingEventType::Unlock) == 0);
    assert(c1.last() == spec_lock());
    assert(count_events(c1, OutgoingEventType::Lock) == 1);
    assert(count_events(c1, OutgoingEventType::Unlock) == 0);
    assert(c2.last() == spec_unlock());
    assert(count_events(c2, OutgoingEventType::Lock) == 1);
    assert(count_events(c2, OutgoingEventType::Unlock) == 1);
    assert(c.last() == spec_rtu_snapshot(rtu));
    assert(count_events(c, OutgoingEventType::Lock) == 1);
    assert(count_events(c, OutgoingEventType::Unlock) == 1);
}

} // verus!
