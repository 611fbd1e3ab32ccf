//! The snapshot differ: given a posted RTU snapshot and the current one,
//! plans the minimal set of hardware writes.
//!
//! Connecting to a device costs tens of milliseconds, so a full-snapshot
//! post must not rewrite devices whose state already matches.  A device of
//! the incoming snapshot is written exactly when the current snapshot has
//! no device with its id, or has one in a different state.  The planned
//! writes run in incoming order and abort on the first failure; only when
//! every one succeeds is the current snapshot replaced by the incoming one,
//! so no reader ever observes a half-applied diff.

use vstd::prelude::*;

use crate::event::EventType;
use crate::model::{Device, DeviceView, RTU, clone_devices, device_views};
use crate::model::{find_by_id, lemma_find_by_id_first};
use crate::model::validators::unique_ids;
use crate::ws_handlers::{BatchView, DeviceBatch, batch_wf};

verus! {

broadcast use crate::model::lemma_device_views_index;

/// Whether enacting `d` requires a hardware write, given the current
/// devices: yes when no current device carries its id, or when the one
/// that does is in a different state.
pub open spec fn spec_needs_write(d: DeviceView, current: Seq<DeviceView>) -> bool {
    match find_by_id(current, d.id) {
        Some(c) => c.state != d.state,
        None => true,
    }
}

/// The devices of `inc` that need a hardware write, in `inc`'s order.
pub open spec fn spec_devices_to_enact(inc: Seq<DeviceView>, cur: Seq<DeviceView>) -> Seq<
    DeviceView,
>
    decreases inc.len(),
{
    if inc.len() == 0 {
        Seq::empty()
    } else {
        spec_devices_to_enact(inc.drop_last(), cur) + (if spec_needs_write(inc.last(), cur) {
            seq![inc.last()]
        } else {
            Seq::empty()
        })
    }
}

/// Computes the devices of the incoming snapshot that need a write.
pub fn devices_to_enact(incoming: &RTU, current: &RTU) -> (r: Vec<Device>)
    ensures
        device_views(r@) == spec_devices_to_enact(incoming@.devices, current@.devices),
{
    let ghost inc = incoming@.devices;
    let ghost cur = current@.devices;
    let mut out: Vec<Device> = Vec::new();
    let mut i: usize = 0;
    proof {
        assert(inc.take(0) =~= Seq::<DeviceView>::empty());
        assert(device_views(out@) =~= Seq::<DeviceView>::empty());
    }
    while i < incoming.devices.len()
        invariant
            i <= incoming.devices.len(),
            inc == incoming@.devices,
            cur == current@.devices,
            inc.len() == incoming.devices@.len(),
            device_views(out@) == spec_devices_to_enact(inc.take(i as int), cur),
        decreases incoming.devices.len() - i,
    {
        let d = &incoming.devices[i];
        let needs_write: bool = match current.find_device(d.id.as_str()) {
            Some(ci) => !(current.devices[ci].state == d.state),
            None => true,
        };
        proof {
            assert(needs_write == spec_needs_write(inc[i as int], cur));
        }
        let ghost prev = device_views(out@);
        if needs_write {
            out.push(d.clone());
            proof {
                assert(device_views(out@) =~= prev + seq![inc[i as int]]);
            }
        }
        proof {
            assert(inc.take(i + 1).drop_last() =~= inc.take(i as int));
            assert(inc.take(i + 1).last() == inc[i as int]);
            if !needs_write {
                assert(device_views(out@) =~= prev + Seq::<DeviceView>::empty());
            }
        }
        i += 1;
    }
    proof {
        assert(inc.take(inc.len() as int) =~= inc);
    }
    out
}

/// The batch that applies a diffed snapshot: the planned writes in
/// incoming order, no pacing, aborting on the first failure.
pub fn diff_batch(incoming: &RTU, current: &RTU) -> (b: DeviceBatch)
    ensures
        b@ == (BatchView {
            kind: EventType::DeviceEnact,
            devices: spec_devices_to_enact(incoming@.devices, current@.devices),
            time_between: 0,
            halt_if_error: true,
            idx: 0,
            halted: false,
            succeeded: Seq::<DeviceView>::empty(),
            failed: Seq::<DeviceView>::empty(),
        }),
        batch_wf(b@),
{
    DeviceBatch::new(EventType::DeviceEnact, devices_to_enact(incoming, current), 0, true)
}

/// Replaces the current snapshot with the incoming one exactly when every
/// planned write of the finished diff batch succeeded; otherwise the
/// current snapshot is left as it was.
pub fn commit_snapshot(current: &mut RTU, incoming: RTU, batch: &DeviceBatch) -> (committed: bool)
    requires
        batch_wf(batch@),
        crate::ws_handlers::spec_done(batch@),
    ensures
        committed == (batch@.failed.len() == 0),
        committed ==> final(current)@ == incoming@,
        !committed ==> final(current)@ == old(current)@,
{
    if batch.failed_count() == 0 {
        *current = incoming;
        true
    } else {
        false
    }
}

/// When no incoming device needs a write, the plan is empty.
proof fn lemma_no_writes_when_matched(inc: Seq<DeviceView>, cur: Seq<DeviceView>)
    requires
        forall|k: int| 0 <= k < inc.len() ==> !spec_needs_write(#[trigger] inc[k], cur),
    ensures
        spec_devices_to_enact(inc, cur) == Seq::<DeviceView>::empty(),
    decreases inc.len(),
{
    if inc.len() > 0 {
        lemma_no_writes_when_matched(inc.drop_last(), cur);
        assert(spec_devices_to_enact(inc, cur) =~= Seq::<DeviceView>::empty());
    }
}

/// Law: diffing a snapshot against an identical current snapshot plans no
/// hardware write at all.
pub proof fn lemma_diff_identical_no_writes(c: Seq<DeviceView>)
    requires
        unique_ids(c),
    ensures
        spec_devices_to_enact(c, c) == Seq::<DeviceView>::empty(),
{
    assert forall|k: int| 0 <= k < c.len() implies !spec_needs_write(#[trigger] c[k], c) by {
        lemma_find_by_id_first(c, c[k].id, k);
    }
    lemma_no_writes_when_matched(c, c);
}

proof fn lemma_diff_prefix(inc: Seq<DeviceView>, cur: Seq<DeviceView>, x: int, m: int)
    requires
        unique_ids(cur),
        0 <= m <= cur.len(),
        inc.len() == m,
        0 <= x < cur.len(),
        forall|i: int| 0 <= i < m && i != x ==> #[trigger] inc[i] == cur[i],
        x < m ==> inc[x].id == cur[x].id && inc[x].state != cur[x].state,
    ensures
        spec_devices_to_enact(inc, cur) == if x < m {
            seq![inc[x]]
        } else {
            Seq::<DeviceView>::empty()
        },
    decreases m,
{
    if m > 0 {
        let pre = inc.drop_last();
        lemma_diff_prefix(pre, cur, x, m - 1);
        let last = inc.last();
        if m - 1 == x {
            lemma_find_by_id_first(cur, cur[x].id, x);
            assert(spec_needs_write(last, cur));
            assert(spec_devices_to_enact(inc, cur) =~= seq![inc[x]]);
        } else {
            assert(last == cur[m - 1]);
            lemma_find_by_id_first(cur, cur[m - 1].id, m - 1);
            assert(!spec_needs_write(last, cur));
            if x < m - 1 {
                assert(pre[x] == inc[x]);
                assert(spec_devices_to_enact(inc, cur) =~= seq![inc[x]]);
            } else {
                assert(spec_devices_to_enact(inc, cur) =~= Seq::<DeviceView>::empty());
            }
        }
    }
}

/// Law: when the incoming snapshot differs from the current one only in
/// one device's state, exactly one write is planned, and it is for that
/// device.
pub proof fn lemma_diff_single_change(inc: Seq<DeviceView>, cur: Seq<DeviceView>, x: int)
    requires
        unique_ids(cur),
        inc.len() == cur.len(),
        0 <= x < cur.len(),
        forall|i: int| 0 <= i < inc.len() && i != x ==> #[trigger] inc[i] == cur[i],
        inc[x].id == cur[x].id,
        inc[x].state != cur[x].state,
    ensures
        spec_devices_to_enact(inc, cur) == seq![inc[x]],
{
    lemma_diff_prefix(inc, cur, x, cur.len() as int);
}

} // verus!
