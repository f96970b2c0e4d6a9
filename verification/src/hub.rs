//! The relay between one producer and any number of feeds.
//!
//! A [`Hub`] keeps no history for its consumers. Each feed has room for one
//! snapshot: a newer one replaces an unread older one, and a feed never sees
//! what was published before it subscribed.

use crate::snapshot::Snapshot;
use vstd::prelude::*;

verus! {

/// What a hub is, as a mathematical value.
///
/// `published` records every snapshot ever handed to the hub, oldest first.
/// It exists only in proofs: the running hub stores at most one snapshot per
/// feed. `cursors` maps each live feed to the length of `published` up to
/// which that feed is done: everything before the cursor was published before
/// the feed subscribed, was read by it, or was replaced before it was read.
pub struct HubState {
    pub published: Seq<Seq<u32>>,
    pub cursors: Map<usize, nat>,
    pub closed: bool,
}

/// What a feed shows to the one who polls it.
pub enum Exposure {
    /// A snapshot that this feed has not handed out yet.
    Snapshot(Seq<u32>),
    /// Nothing new since the feed was last read.
    Pending,
    /// The feed is not registered: it was released, or the hub was closed.
    Closed,
}

impl HubState {
    /// A hub that has published nothing and has no feed.
    pub open spec fn initial() -> HubState {
        HubState { published: Seq::empty(), cursors: Map::empty(), closed: false }
    }

    /// No cursor runs ahead of what was published, and a closed hub has no
    /// feed.
    pub open spec fn wf(self) -> bool {
        &&& forall|id: usize| #[trigger]
            self.cursors.dom().contains(id) ==> self.cursors[id] <= self.published.len()
        &&& self.closed ==> forall|id: usize| !#[trigger] self.cursors.dom().contains(id)
    }

    /// Whether `id` names a registered feed.
    pub open spec fn is_live(self, id: usize) -> bool {
        self.cursors.dom().contains(id)
    }

    /// What feed `id` shows: the newest snapshot if any was published since
    /// the feed's cursor, else nothing.
    pub open spec fn exposed(self, id: usize) -> Exposure {
        if !self.is_live(id) {
            Exposure::Closed
        } else if self.cursors[id] < self.published.len() {
            Exposure::Snapshot(self.published.last())
        } else {
            Exposure::Pending
        }
    }

    /// The hub after `snapshot` was published: one more entry in the record,
    /// every cursor where it was.
    pub open spec fn publish(self, snapshot: Seq<u32>) -> HubState {
        HubState { published: self.published.push(snapshot), ..self }
    }

    /// The hub after a feed was registered under `id`, with its cursor at the
    /// end of the record. A closed hub registers nothing.
    pub open spec fn subscribe(self, id: usize) -> HubState {
        if self.closed {
            self
        } else {
            HubState { cursors: self.cursors.insert(id, self.published.len()), ..self }
        }
    }

    /// The hub after feed `id` was polled: its cursor is at the end of the
    /// record.
    pub open spec fn take(self, id: usize) -> HubState {
        if self.is_live(id) {
            HubState { cursors: self.cursors.insert(id, self.published.len()), ..self }
        } else {
            self
        }
    }

    /// The hub after feed `id` was given up.
    pub open spec fn release(self, id: usize) -> HubState {
        HubState { cursors: self.cursors.remove(id), ..self }
    }

    /// The hub after it was torn down: no feed is left, and none will be
    /// registered again.
    pub open spec fn close(self) -> HubState {
        HubState { published: self.published, cursors: Map::empty(), closed: true }
    }
}

/// A subscriber's handle into a hub.
///
/// The handle cannot be copied, and giving it back to [`Hub::release`] uses
/// it up, so a released feed cannot be polled by accident.
#[derive(Debug)]
pub struct Feed {
    slot: usize,
}

impl Feed {
    /// The key under which the hub keeps this feed.
    pub closed spec fn id(&self) -> usize {
        self.slot
    }
}

/// The outcome of polling a feed.
#[derive(Debug)]
pub enum Delivery {
    /// The newest snapshot published since the feed was last read.
    Snapshot(Snapshot),
    /// Nothing was published since the feed was last read.
    Pending,
    /// End of stream: the feed was released or the hub was closed.
    Closed,
}

impl View for Delivery {
    type V = Exposure;

    open spec fn view(&self) -> Exposure {
        match self {
            Delivery::Snapshot(snapshot) => Exposure::Snapshot(snapshot@),
            Delivery::Pending => Exposure::Pending,
            Delivery::Closed => Exposure::Closed,
        }
    }
}

struct Slot {
    live: bool,
    pending: Option<Snapshot>,
    cursor: Ghost<nat>,
}

/// A slot in use holds a snapshot exactly when its cursor is behind the
/// record, and then it holds the newest one.
spec fn slot_agrees(slot: Slot, published: Seq<Seq<u32>>) -> bool {
    slot.live ==> match slot.pending {
        Some(snapshot) => slot.cursor@ < published.len() && snapshot@ == published.last(),
        None => slot.cursor@ == published.len(),
    }
}

spec fn slots_agree(slots: Seq<Slot>, published: Seq<Seq<u32>>) -> bool {
    forall|k: int| 0 <= k < slots.len() ==> slot_agrees(#[trigger] slots[k], published)
}

spec fn cursors_of(slots: Seq<Slot>) -> Map<usize, nat> {
    Map::new(
        |id: usize| (id as int) < slots.len() && slots[id as int].live,
        |id: usize| slots[id as int].cursor@,
    )
}

/// The fan-out relay: one publish point, one slot per subscriber.
///
/// Every call that changes the hub takes it by `&mut`, so no two calls
/// overlap. To share a hub between tasks, keep it behind a lock: a subscribe
/// that arrives during a publish then waits for the publish to finish.
pub struct Hub {
    slots: Vec<Slot>,
    closed: bool,
    published: Ghost<Seq<Seq<u32>>>,
}

impl View for Hub {
    type V = HubState;

    closed spec fn view(&self) -> HubState {
        HubState {
            published: self.published@,
            cursors: cursors_of(self.slots@),
            closed: self.closed,
        }
    }
}

/// Puts a copy of `snapshot` into every slot in use, over whatever was there.
fn fill_slots(slots: &mut Vec<Slot>, snapshot: &Snapshot, Ghost(before): Ghost<Seq<Seq<u32>>>)
    requires
        slots_agree(old(slots)@, before),
    ensures
        slots_agree(final(slots)@, before.push(snapshot@)),
        cursors_of(final(slots)@) == cursors_of(old(slots)@),
        final(slots)@.len() == old(slots)@.len(),
        forall|k: int| 0 <= k < old(slots)@.len() ==> final(slots)@[k].live == old(slots)@[k].live,
{
    let ghost after = before.push(snapshot@);
    let ghost start = slots@;
    let mut i: usize = 0;
    while i < slots.len()
        invariant
            i <= slots.len(),
            slots.len() == start.len(),
            after == before.push(snapshot@),
            slots_agree(start, before),
            forall|k: int|
                0 <= k < slots.len() ==> (#[trigger] slots@[k]).live == start[k].live
                    && slots@[k].cursor@ == start[k].cursor@,
            forall|k: int| 0 <= k < i ==> slot_agrees(#[trigger] slots@[k], after),
            forall|k: int| i <= k < slots.len() ==> #[trigger] slots@[k] == start[k],
        decreases slots.len() - i,
    {
        if slots[i].live {
            assert(slot_agrees(start[i as int], before));
            slots[i].pending = Some(snapshot.clone());
        }
        i += 1;
    }
    assert(cursors_of(slots@) =~= cursors_of(start));
}

/// The first slot that is not in use, or the length if all are.
fn first_vacant(slots: &Vec<Slot>) -> (at: usize)
    ensures
        at <= slots@.len(),
        at < slots@.len() ==> !slots@[at as int].live,
{
    let mut i: usize = 0;
    while i < slots.len()
        invariant
            i <= slots.len(),
        decreases slots.len() - i,
    {
        if !slots[i].live {
            return i;
        }
        i += 1;
    }
    i
}

impl Hub {
    #[verifier::type_invariant]
    spec fn inv(self) -> bool {
        &&& slots_agree(self.slots@, self.published@)
        &&& self.closed ==> forall|k: int|
            0 <= k < self.slots@.len() ==> !(#[trigger] self.slots@[k]).live
    }

    /// A hub with no feed and nothing published.
    pub fn new() -> (hub: Hub)
        ensures
            hub@ == HubState::initial(),
            hub@.wf(),
    {
        let hub = Hub { slots: Vec::new(), closed: false, published: Ghost(Seq::empty()) };
        assert(hub@.cursors =~= Map::empty());
        hub
    }

    /// Registers a new feed, which will see what is published from now on and
    /// nothing from before.
    ///
    /// On a hub that was closed nothing is registered: the handle that comes
    /// back is at end of stream from the start.
    pub fn subscribe(&mut self) -> (feed: Feed)
        ensures
            !old(self)@.is_live(feed.id()),
            final(self)@ == old(self)@.subscribe(feed.id()),
            final(self)@.wf(),
    {
        proof {
            use_type_invariant(&*self);
        }
        if self.closed {
            return Feed { slot: self.slots.len() };
        }
        let mut slots: Vec<Slot> = Vec::new();
        std::mem::swap(&mut slots, &mut self.slots);
        let ghost start = slots@;
        let at = first_vacant(&slots);
        let fresh = Slot { live: true, pending: None, cursor: Ghost(self.published@.len()) };
        if at < slots.len() {
            slots[at] = fresh;
        } else {
            slots.push(fresh);
        }
        assert(cursors_of(slots@) =~= cursors_of(start).insert(at, self.published@.len()));
        self.slots = slots;
        Feed { slot: at }
    }

    /// Makes `snapshot` the one that every registered feed shows next,
    /// whether or not the feed had read the one before.
    ///
    /// It never waits for a consumer, and it needs none: with no feed
    /// registered the snapshot reaches nobody, and the call is as good as any
    /// other.
    pub fn publish(&mut self, snapshot: Snapshot)
        ensures
            final(self)@ == old(self)@.publish(snapshot@),
            final(self)@.wf(),
    {
        proof {
            use_type_invariant(&*self);
        }
        let mut slots: Vec<Slot> = Vec::new();
        std::mem::swap(&mut slots, &mut self.slots);
        fill_slots(&mut slots, &snapshot, Ghost(self.published@));
        self.published = Ghost(self.published@.push(snapshot@));
        self.slots = slots;
    }

    /// Polls `feed`: hands out the snapshot it shows, if any, and leaves the
    /// feed with nothing to show until the next publish.
    pub fn take(&mut self, feed: &Feed) -> (delivery: Delivery)
        ensures
            delivery@ == old(self)@.exposed(feed.id()),
            final(self)@ == old(self)@.take(feed.id()),
            final(self)@.wf(),
    {
        proof {
            use_type_invariant(&*self);
        }
        let at = feed.slot;
        if at >= self.slots.len() || !self.slots[at].live {
            return Delivery::Closed;
        }
        let mut slots: Vec<Slot> = Vec::new();
        std::mem::swap(&mut slots, &mut self.slots);
        let ghost start = slots@;
        let mut held = Slot { live: true, pending: None, cursor: Ghost(self.published@.len()) };
        assert(slot_agrees(start[at as int], self.published@));
        std::mem::swap(&mut slots[at], &mut held);
        assert(cursors_of(slots@) =~= cursors_of(start).insert(at, self.published@.len()));
        self.slots = slots;
        match held.pending {
            Some(snapshot) => Delivery::Snapshot(snapshot),
            None => Delivery::Pending,
        }
    }

    /// Gives `feed` up. Its slot is free for a later subscriber; the other
    /// feeds are untouched.
    pub fn release(&mut self, feed: Feed)
        ensures
            final(self)@ == old(self)@.release(feed.id()),
            final(self)@.wf(),
    {
        proof {
            use_type_invariant(&*self);
        }
        let at = feed.slot;
        if at >= self.slots.len() {
            assert(cursors_of(self.slots@) =~= cursors_of(self.slots@).remove(at));
            return ;
        }
        let mut slots: Vec<Slot> = Vec::new();
        std::mem::swap(&mut slots, &mut self.slots);
        let ghost start = slots@;
        slots[at] = Slot { live: false, pending: None, cursor: Ghost(0) };
        assert(cursors_of(slots@) =~= cursors_of(start).remove(at));
        self.slots = slots;
    }

    /// Tears the hub down: every feed is at end of stream from now on.
    pub fn close(&mut self)
        ensures
            final(self)@ == old(self)@.close(),
            final(self)@.wf(),
    {
        proof {
            use_type_invariant(&*self);
        }
        self.slots = Vec::new();
        self.closed = true;
        assert(cursors_of(self.slots@) =~= Map::empty());
    }

    /// Whether the hub was torn down.
    pub fn is_closed(&self) -> (closed: bool)
        ensures
            closed == self@.closed,
    {
        self.closed
    }

    /// Whether `feed` is registered here.
    pub fn is_live(&self, feed: &Feed) -> (live: bool)
        ensures
            live == self@.is_live(feed.id()),
    {
        feed.slot < self.slots.len() && self.slots[feed.slot].live
    }
}

} // verus!
