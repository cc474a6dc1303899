//! The tagged response bus: every tagged packet that arrives is handed to
//! each task that waits for a reply at that moment, in the order of arrival.
//!
//! The bus is a registry of subscriber places. A subscriber sees what is
//! published while it holds its place and nothing from before.
//!
//! The places are vectors of this library, not the publish-subscribe
//! channel of `embassy_sync`. Verus does not take the declaration of that
//! channel, whose parameters are bound by a trait of `embassy_sync`. Held
//! inside a struct of this library, the channel is borrowed by each of its
//! subscribers for as long as they live, so no function can take the bus by
//! `&mut` and say how a broadcast changes what waits for each of them.

use crate::structs::{TimerPacket, TimerPacketView};
use vstd::prelude::*;

verus! {

/// The number of tasks that can wait for a reply at the same time.
pub const MAX_SUBSCRIBERS: usize = 20;

/// The number of packets that can wait for one subscriber.
pub const BUS_CAPACITY: usize = 20;

/// The packets that wait for one subscriber, as plain values.
pub open spec fn pending_view(pending: Seq<(u64, TimerPacket)>) -> Seq<(u64, TimerPacketView)> {
    Seq::new(pending.len(), |i: int| (pending[i].0, pending[i].1@))
}

/// The places of the registry, as plain values: a free place is `None`.
pub open spec fn places_view(places: Seq<Option<Vec<(u64, TimerPacket)>>>) -> Seq<
    Option<Seq<(u64, TimerPacketView)>>,
> {
    Seq::new(
        places.len(),
        |i: int|
            match places[i] {
                Some(pending) => Some(pending_view(pending@)),
                None => None,
            },
    )
}

/// Every subscriber has room for one more packet.
pub open spec fn has_room(places: Seq<Option<Seq<(u64, TimerPacketView)>>>) -> bool {
    forall|i: int|
        0 <= i < places.len() ==> match #[trigger] places[i] {
            Some(pending) => pending.len() < BUS_CAPACITY,
            None => true,
        }
}

/// The registry after a packet went to every subscriber.
pub open spec fn published(
    places: Seq<Option<Seq<(u64, TimerPacketView)>>>,
    tag: u64,
    packet: TimerPacketView,
) -> Seq<Option<Seq<(u64, TimerPacketView)>>> {
    Seq::new(
        places.len(),
        |i: int|
            match places[i] {
                Some(pending) => Some(pending.push((tag, packet))),
                None => None,
            },
    )
}

/// No place at an index below `limit` is free.
pub open spec fn taken_below(places: Seq<Option<Seq<(u64, TimerPacketView)>>>, limit: int) -> bool {
    forall|i: int| 0 <= i < limit && i < places.len() ==> (#[trigger] places[i]) is Some
}

/// The index of the first packet at or after `from` that carries `tag`, or
/// the number of packets where there is none.
pub open spec fn first_tagged(pending: Seq<(u64, TimerPacketView)>, tag: u64, from: int) -> int
    decreases pending.len() - from,
{
    if from < 0 || from >= pending.len() {
        pending.len() as int
    } else if pending[from].0 == tag {
        from
    } else {
        first_tagged(pending, tag, from + 1)
    }
}

/// Why a task could not subscribe.
#[derive(Debug, Clone, Copy, PartialEq, Eq)]
pub enum SubscribeError {
    /// Every place is taken.
    MaximumSubscribersReached,
}

/// The registry of subscribers with the packets that wait for each.
pub struct TaggedBus {
    places: Vec<Option<Vec<(u64, TimerPacket)>>>,
}

impl View for TaggedBus {
    type V = Seq<Option<Seq<(u64, TimerPacketView)>>>;

    closed spec fn view(&self) -> Seq<Option<Seq<(u64, TimerPacketView)>>> {
        places_view(self.places@)
    }
}

impl TaggedBus {
    #[verifier::type_invariant]
    spec fn well_formed(self) -> bool {
        &&& self.places.len() <= MAX_SUBSCRIBERS
        &&& forall|i: int|
            0 <= i < self.places.len() ==> match #[trigger] self.places[i] {
                Some(pending) => pending.len() <= BUS_CAPACITY,
                None => true,
            }
    }

    /// A bus without subscribers.
    pub fn new() -> (bus: Self)
        ensures
            bus@ == Seq::<Option<Seq<(u64, TimerPacketView)>>>::empty(),
    {
        TaggedBus { places: Vec::new() }
    }

    /// Whether `id` names a place that a subscriber holds. A bus never has
    /// more places than subscribers may be.
    pub fn is_subscribed(&self, id: usize) -> (held: bool)
        ensures
            held == (id < self@.len() && self@[id as int] is Some),
            self@.len() <= MAX_SUBSCRIBERS,
    {
        proof {
            use_type_invariant(self);
        }
        id < self.places.len() && self.places[id].is_some()
    }

    /// Takes the free place with the lowest index, or a new place behind
    /// the others. Fails exactly where the bus has all its places and every
    /// one is taken, and then changes nothing.
    pub fn subscribe(&mut self) -> (outcome: Result<usize, SubscribeError>)
        ensures
            old(self)@.len() <= MAX_SUBSCRIBERS,
            final(self)@.len() <= MAX_SUBSCRIBERS,
            match outcome {
                Ok(id) => {
                    &&& id < MAX_SUBSCRIBERS
                    &&& id <= old(self)@.len()
                    &&& taken_below(old(self)@, id as int)
                    &&& id < old(self)@.len() ==> old(self)@[id as int] is None && final(self)@
                        == old(self)@.update(
                        id as int,
                        Some(Seq::<(u64, TimerPacketView)>::empty()),
                    )
                    &&& id == old(self)@.len() ==> final(self)@ == old(self)@.push(
                        Some(Seq::<(u64, TimerPacketView)>::empty()),
                    )
                },
                Err(_) => old(self)@.len() == MAX_SUBSCRIBERS && taken_below(
                    old(self)@,
                    MAX_SUBSCRIBERS as int,
                ) && final(self)@ == old(self)@,
            },
    {
        proof {
            use_type_invariant(&*self);
        }
        let mut i: usize = 0;
        while i < self.places.len()
            invariant
                i <= self.places.len(),
                self.places.len() <= MAX_SUBSCRIBERS,
                *self == *old(self),
                taken_below(self@, i as int),
            decreases self.places.len() - i,
        {
            if self.places[i].is_none() {
                proof {
                    use_type_invariant(&*self);
                }
                let mut places: Vec<Option<Vec<(u64, TimerPacket)>>> = Vec::new();
                core::mem::swap(&mut self.places, &mut places);
                places.set(i, Some(Vec::new()));
                assert forall|k: int| 0 <= k < places.len() implies match #[trigger] places[k] {
                    Some(pending) => pending.len() <= BUS_CAPACITY,
                    None => true,
                } by {}
                core::mem::swap(&mut self.places, &mut places);
                assert(pending_view(self.places[i as int]->Some_0@) =~= Seq::<
                    (u64, TimerPacketView),
                >::empty());
                return Ok(i);
            }
            i += 1;
        }
        if i < MAX_SUBSCRIBERS {
            proof {
                use_type_invariant(&*self);
            }
            let mut places: Vec<Option<Vec<(u64, TimerPacket)>>> = Vec::new();
            core::mem::swap(&mut self.places, &mut places);
            places.push(Some(Vec::new()));
            assert forall|k: int| 0 <= k < places.len() implies match #[trigger] places[k] {
                Some(pending) => pending.len() <= BUS_CAPACITY,
                None => true,
            } by {}
            core::mem::swap(&mut self.places, &mut places);
            assert(pending_view(self.places[i as int]->Some_0@) =~= Seq::<
                (u64, TimerPacketView),
            >::empty());
            return Ok(i);
        }
        Err(SubscribeError::MaximumSubscribersReached)
    }

    /// Gives a place up; the packets that waited there are dropped. An
    /// index that names no place changes nothing.
    pub fn unsubscribe(&mut self, id: usize)
        ensures
            final(self)@ == (if id < old(self)@.len() {
                old(self)@.update(id as int, None)
            } else {
                old(self)@
            }),
    {
        proof {
            use_type_invariant(&*self);
        }
        if id < self.places.len() {
            let mut places: Vec<Option<Vec<(u64, TimerPacket)>>> = Vec::new();
            core::mem::swap(&mut self.places, &mut places);
            places.set(id, None);
            assert forall|k: int| 0 <= k < places.len() implies match #[trigger] places[k] {
                Some(pending) => pending.len() <= BUS_CAPACITY,
                None => true,
            } by {}
            core::mem::swap(&mut self.places, &mut places);
        }
    }

    /// Whether a packet could go to every subscriber now.
    pub fn can_publish(&self) -> (room: bool)
        ensures
            room == has_room(self@),
    {
        proof {
            use_type_invariant(self);
        }
        let mut i: usize = 0;
        while i < self.places.len()
            invariant
                i <= self.places.len(),
                forall|k: int|
                    0 <= k < i ==> match #[trigger] self@[k] {
                        Some(pending) => pending.len() < BUS_CAPACITY,
                        None => true,
                    },
            decreases self.places.len() - i,
        {
            match &self.places[i] {
                Some(pending) => {
                    if pending.len() >= BUS_CAPACITY {
                        return false;
                    }
                },
                None => {},
            }
            assert(self@[i as int] is Some ==> self.places[i as int] is Some);
            i += 1;
        }
        true
    }

    /// Hands a packet to every subscriber, behind the packets that wait
    /// already. With no subscriber nothing happens. Where some subscriber
    /// has no room the packet comes back and nothing changes.
    pub fn try_publish(&mut self, tag: u64, packet: TimerPacket) -> (outcome: Result<
        (),
        TimerPacket,
    >)
        ensures
            match outcome {
                Ok(()) => has_room(old(self)@) && final(self)@ == published(
                    old(self)@,
                    tag,
                    packet@,
                ),
                Err(back) => !has_room(old(self)@) && back == packet && final(self)@ == old(self)@,
            },
    {
        if !self.can_publish() {
            return Err(packet);
        }
        proof {
            use_type_invariant(&*self);
        }
        let mut places: Vec<Option<Vec<(u64, TimerPacket)>>> = Vec::new();
        core::mem::swap(&mut self.places, &mut places);
        let ghost before = places@;
        let mut i: usize = 0;
        while i < places.len()
            invariant
                i <= places.len(),
                places.len() <= MAX_SUBSCRIBERS,
                before.len() == places.len(),
                has_room(places_view(before)),
                forall|k: int|
                    0 <= k < i ==> places_view(places@)[k] == #[trigger] published(
                        places_view(before),
                        tag,
                        packet@,
                    )[k],
                forall|k: int| i <= k < places.len() ==> #[trigger] places[k] == before[k],
                forall|k: int|
                    0 <= k < places.len() ==> match #[trigger] places[k] {
                        Some(pending) => pending.len() <= BUS_CAPACITY,
                        None => true,
                    },
            decreases places.len() - i,
        {
            let place = places.remove(i);
            let place = match place {
                Some(mut pending) => {
                    assert(places_view(before)[i as int] is Some);
                    let copy = packet.duplicate();
                    pending.push((tag, copy));
                    Some(pending)
                },
                None => None,
            };
            places.insert(i, place);
            assert forall|k: int| 0 <= k < i + 1 implies places_view(places@)[k]
                == #[trigger] published(places_view(before), tag, packet@)[k] by {}
            assert forall|k: int| i + 1 <= k < places.len() implies #[trigger] places[k]
                == before[k] by {}
            i += 1;
        }
        core::mem::swap(&mut self.places, &mut places);
        Ok(())
    }

    /// Takes the packets that wait for a subscriber, oldest first, until one
    /// carries `tag`; that one is the result and the ones before it are
    /// dropped. Where none carries the tag all are dropped and the result is
    /// `None`. An index that names no subscriber changes nothing.
    pub fn take_tagged(&mut self, id: usize, tag: u64) -> (found: Option<TimerPacket>)
        ensures
            id >= old(self)@.len() || old(self)@[id as int] is None ==> found is None && final(self)@ == old(self)@,
            id < old(self)@.len() && old(self)@[id as int] is Some ==> ({
                let pending = old(self)@[id as int]->Some_0;
                let at = first_tagged(pending, tag, 0);
                &&& 0 <= at <= pending.len()
                &&& at < pending.len() ==> (found matches Some(p) && p@ == pending[at].1
                    && pending[at].0 == tag && final(self)@ == old(self)@.update(
                    id as int,
                    Some(pending.skip(at + 1)),
                ))
                &&& at == pending.len() ==> found is None && final(self)@ == old(self)@.update(
                    id as int,
                    Some(Seq::<(u64, TimerPacketView)>::empty()),
                )
            }),
    {
        proof {
            use_type_invariant(&*self);
        }
        if id >= self.places.len() || self.places[id].is_none() {
            return None;
        }
        let mut places: Vec<Option<Vec<(u64, TimerPacket)>>> = Vec::new();
        core::mem::swap(&mut self.places, &mut places);
        let place = places.remove(id);
        let mut pending: Vec<(u64, TimerPacket)> = place.unwrap();
        let ghost all = pending_view(pending@);
        let ghost taken: int = 0;
        let mut found: Option<TimerPacket> = None;
        while pending.len() > 0
            invariant_except_break
                found is None,
                first_tagged(all, tag, 0) == first_tagged(all, tag, taken),
            invariant
                0 <= taken <= all.len(),
                pending.len() <= BUS_CAPACITY,
                pending.len() + taken == all.len(),
                pending_view(pending@) =~= all.skip(taken),
            ensures
                match found {
                    Some(p) => first_tagged(all, tag, 0) == taken - 1 && 0 <= taken - 1 < all.len()
                        && p@ == all[taken - 1].1 && all[taken - 1].0 == tag,
                    None => first_tagged(all, tag, 0) == all.len() && taken == all.len(),
                },
            decreases pending.len(),
        {
            let ghost before = pending@;
            proof {
                assert(pending_view(before)[0] == all[taken]);
            }
            let (seen, packet) = pending.remove(0);
            proof {
                assert forall|k: int| 0 <= k < pending@.len() implies pending_view(pending@)[k]
                    == all.skip(taken + 1)[k] by {
                    assert(pending_view(before)[k + 1] == all.skip(taken)[k + 1]);
                }
                taken = taken + 1;
            }
            if seen == tag {
                found = Some(packet);
                break ;
            }
        }
        places.insert(id, Some(pending));
        assert forall|k: int| 0 <= k < places.len() implies match #[trigger] places[k] {
            Some(pending) => pending.len() <= BUS_CAPACITY,
            None => true,
        } by {}
        core::mem::swap(&mut self.places, &mut places);
        assert(found is None ==> all.skip(taken) =~= Seq::<(u64, TimerPacketView)>::empty());
        found
    }
}

/// What a subscriber finds under a tag is the first packet under that tag,
/// whatever waits under other tags before it; it finds nothing exactly
/// where no packet waits under the tag.
pub proof fn lemma_first_tagged(pending: Seq<(u64, TimerPacketView)>, tag: u64, from: int)
    requires
        0 <= from <= pending.len(),
    ensures
        from <= first_tagged(pending, tag, from) <= pending.len(),
        first_tagged(pending, tag, from) < pending.len() ==> pending[first_tagged(
            pending,
            tag,
            from,
        )].0 == tag,
        forall|k: int| from <= k < first_tagged(pending, tag, from) ==> (#[trigger] pending[k]).0 != tag,
    decreases pending.len() - from,
{
    if from < pending.len() && pending[from].0 != tag {
        lemma_first_tagged(pending, tag, from + 1);
    }
}

} // verus!
