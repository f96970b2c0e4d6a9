//! What holds of every hub, stated over [`HubState`] and proved.
//!
//! The executable [`Hub`](crate::hub::Hub) promises in its contracts that each
//! call moves its view by the matching step below, so what is proved here of
//! the steps holds of every run of the hub.

use crate::hub::{Exposure, HubState};
use vstd::prelude::*;

verus! {

/// One call on a hub.
pub enum HubOp {
    Publish(Seq<u32>),
    Subscribe(usize),
    Take(usize),
    Release(usize),
    Close,
}

impl HubOp {
    /// Whether the call polls, registers or removes feed `id`, or closes the
    /// hub and so removes every feed.
    pub open spec fn touches(self, id: usize) -> bool {
        match self {
            HubOp::Publish(_) => false,
            HubOp::Subscribe(other) => other == id,
            HubOp::Take(other) => other == id,
            HubOp::Release(other) => other == id,
            HubOp::Close => true,
        }
    }
}

/// The hub after one call.
pub open spec fn apply(hub: HubState, op: HubOp) -> HubState {
    match op {
        HubOp::Publish(snapshot) => hub.publish(snapshot),
        HubOp::Subscribe(id) => hub.subscribe(id),
        HubOp::Take(id) => hub.take(id),
        HubOp::Release(id) => hub.release(id),
        HubOp::Close => hub.close(),
    }
}

/// The hub after a sequence of calls, first to last.
pub open spec fn run(hub: HubState, ops: Seq<HubOp>) -> HubState
    decreases ops.len(),
{
    if ops.len() == 0 {
        hub
    } else {
        apply(run(hub, ops.drop_last()), ops.last())
    }
}

/// Every call keeps a well-formed hub well-formed, and only ever adds to the
/// end of the record.
pub proof fn step_keeps_wf(hub: HubState, op: HubOp)
    requires
        hub.wf(),
    ensures
        apply(hub, op).wf(),
        hub.published.is_prefix_of(apply(hub, op).published),
{
}

/// Every sequence of calls keeps a well-formed hub well-formed, and only ever
/// adds to the end of the record.
pub proof fn run_keeps_wf(hub: HubState, ops: Seq<HubOp>)
    requires
        hub.wf(),
    ensures
        run(hub, ops).wf(),
        hub.published.is_prefix_of(run(hub, ops).published),
    decreases ops.len(),
{
    if ops.len() > 0 {
        run_keeps_wf(hub, ops.drop_last());
        step_keeps_wf(run(hub, ops.drop_last()), ops.last());
    }
}

/// One publish reaches every registered feed, however many there are: each
/// shows exactly the snapshot that was published.
pub proof fn publish_reaches_every_feed(hub: HubState, snapshot: Seq<u32>)
    requires
        hub.wf(),
    ensures
        forall|id: usize|
            hub.is_live(id) ==> #[trigger] hub.publish(snapshot).exposed(id) == Exposure::Snapshot(
                snapshot,
            ),
        forall|id: usize| hub.is_live(id) == #[trigger] hub.publish(snapshot).is_live(id),
{
}

/// A published snapshot stays on offer until the feed is polled: whatever
/// else happens on the hub in between, the feed then shows that snapshot or
/// one published after it.
pub proof fn published_is_exposed_until_taken(
    hub: HubState,
    id: usize,
    snapshot: Seq<u32>,
    ops: Seq<HubOp>,
)
    requires
        hub.wf(),
        hub.is_live(id),
        forall|k: int| 0 <= k < ops.len() ==> !(#[trigger] ops[k]).touches(id),
    ensures
        ({
            let end = run(hub.publish(snapshot), ops);
            &&& end.published.len() > hub.published.len()
            &&& end.published[hub.published.len() as int] == snapshot
            &&& end.exposed(id) == Exposure::Snapshot(end.published.last())
        }),
    decreases ops.len(),
{
    if ops.len() > 0 {
        let earlier = ops.drop_last();
        assert forall|k: int| 0 <= k < earlier.len() implies !(#[trigger] earlier[k]).touches(
            id,
        ) by {
            assert(earlier[k] == ops[k]);
        }
        published_is_exposed_until_taken(hub, id, snapshot, earlier);
        run_keeps_wf(hub.publish(snapshot), earlier);
        assert(!ops.last().touches(id));
    }
}

/// A feed never goes back: once it was polled, whatever happens on the hub
/// afterwards, the next snapshot it shows was published after the poll, and
/// so after everything the feed had shown before.
pub proof fn feed_never_goes_back(hub: HubState, id: usize, ops: Seq<HubOp>)
    requires
        hub.wf(),
    ensures
        ({
            let end = run(hub.take(id), ops);
            end.exposed(id) is Snapshot ==> {
                &&& end.published.len() > hub.published.len()
                &&& end.exposed(id) == Exposure::Snapshot(end.published.last())
                &&& hub.published.is_prefix_of(end.published)
            }
        }),
{
    cursor_stays_past(hub.take(id), id, hub.published.len(), ops);
    step_keeps_wf(hub, HubOp::Take(id));
    run_keeps_wf(hub.take(id), ops);
}

/// A cursor that is at or past `mark` stays there through every call, also
/// where the feed is released and its key registered anew.
proof fn cursor_stays_past(hub: HubState, id: usize, mark: nat, ops: Seq<HubOp>)
    requires
        hub.wf(),
        hub.published.len() >= mark,
        hub.is_live(id) ==> hub.cursors[id] >= mark,
    ensures
        run(hub, ops).published.len() >= mark,
        run(hub, ops).is_live(id) ==> run(hub, ops).cursors[id] >= mark,
    decreases ops.len(),
{
    if ops.len() > 0 {
        cursor_stays_past(hub, id, mark, ops.drop_last());
        run_keeps_wf(hub, ops.drop_last());
    }
}

/// No replay: a feed that subscribes after some snapshots were published
/// shows none of them. It shows nothing until the next publish, and then the
/// snapshot of that publish.
pub proof fn subscriber_sees_only_what_follows(hub: HubState, id: usize, next: Seq<u32>)
    requires
        hub.wf(),
        !hub.closed,
    ensures
        hub.subscribe(id).exposed(id) == Exposure::Pending,
        hub.subscribe(id).publish(next).exposed(id) == Exposure::Snapshot(next),
{
}

/// Room for one, newest wins: where a second snapshot is published before the
/// first was read, the feed shows the second, and once that is read it shows
/// nothing. The first is never handed out.
pub proof fn newest_replaces_unread(hub: HubState, id: usize, older: Seq<u32>, newer: Seq<u32>)
    requires
        hub.wf(),
        hub.is_live(id),
    ensures
        hub.publish(older).publish(newer).exposed(id) == Exposure::Snapshot(newer),
        hub.publish(older).publish(newer).take(id).exposed(id) == Exposure::Pending,
{
}

/// Feeds do not disturb each other: polling, releasing or registering one
/// feed leaves what every other feed shows as it was.
pub proof fn feeds_are_independent(hub: HubState, id: usize, other: usize)
    requires
        hub.wf(),
        id != other,
    ensures
        hub.take(id).exposed(other) == hub.exposed(other),
        hub.release(id).exposed(other) == hub.exposed(other),
        hub.subscribe(id).exposed(other) == hub.exposed(other),
{
}

/// Once the hub is closed every feed is at end of stream, and stays there
/// whatever is called afterwards.
pub proof fn closed_hub_stays_closed(hub: HubState, id: usize, ops: Seq<HubOp>)
    requires
        hub.wf(),
    ensures
        run(hub.close(), ops).closed,
        run(hub.close(), ops).exposed(id) == Exposure::Closed,
    decreases ops.len(),
{
    if ops.len() > 0 {
        closed_hub_stays_closed(hub, id, ops.drop_last());
        run_keeps_wf(hub.close(), ops.drop_last());
        step_keeps_wf(hub, HubOp::Close);
    }
}

} // verus!
