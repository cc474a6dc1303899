//! The request correlator: a request goes out under a tag, and the reply is
//! the first packet broadcast under that tag while the request waits.
//!
//! Waiting is a sequence of steps. Each step looks at the bus once and says
//! what the caller is to do next: take the reply, wait for the next
//! broadcast, try again later because the bus has no free place, or give up
//! because the time is over.

use crate::bus::{MAX_SUBSCRIBERS, TaggedBus, first_tagged, lemma_first_tagged, taken_below};
use crate::queue::{OutboundQueue, SendOutcome, queued_as, send_packet};
use crate::structs::{
    ApiError, ApiErrorView, FromPacket, TimerPacket, TimerPacketInner, TimerPacketInnerView,
    TimerPacketView,
};
use vstd::prelude::*;

verus! {

/// How long a request waits for its reply, in milliseconds.
pub const REQUEST_TIMEOUT_MS: u64 = 5000;

/// How long a request waits before it asks the bus for a place again.
pub const SUBSCRIBE_RETRY_MS: u64 = 500;

/// A request that was sent and waits for its reply.
#[derive(Debug, Clone, Copy, PartialEq, Eq)]
pub struct PendingRequest {
    /// The tag that the reply will carry.
    pub tag: u64,
    /// The time after which the request gives up; `None` waits for ever.
    pub deadline_ms: Option<u64>,
    /// The place on the bus that the request holds, once it has one.
    pub place: Option<usize>,
    /// Whether the request has ended, in a reply or in a timeout.
    pub finished: bool,
}

/// What one step of waiting found.
#[derive(Debug, PartialEq, Eq)]
pub enum Wait {
    /// The reply.
    Ready(TimerPacket),
    /// No reply yet: wait for the next broadcast or for the deadline.
    Pending,
    /// The bus has no free place: wait this many milliseconds and step again.
    RetryAfter(u64),
    /// The deadline passed without a reply.
    TimedOut,
    /// The request had ended before this step.
    Finished,
}

pub enum WaitView {
    Ready(TimerPacketView),
    Pending,
    RetryAfter(u64),
    TimedOut,
    Finished,
}

impl View for Wait {
    type V = WaitView;

    open spec fn view(&self) -> WaitView {
        match self {
            Wait::Ready(reply) => WaitView::Ready(reply@),
            Wait::Pending => WaitView::Pending,
            Wait::RetryAfter(delay) => WaitView::RetryAfter(*delay),
            Wait::TimedOut => WaitView::TimedOut,
            Wait::Finished => WaitView::Finished,
        }
    }
}

/// The message of the error that stands for a request without a reply.
pub open spec fn timeout_message() -> Seq<char> {
    "Communication timeout!"@
}

/// The error that stands for a request without a reply.
pub fn timeout_error() -> (error: ApiError)
    ensures
        error@ == (ApiErrorView { message: timeout_message(), should_reset_time: false }),
{
    ApiError { message: "Communication timeout!".to_owned(), should_reset_time: false }
}

/// The time at which a request sent at `now_ms` gives up.
pub open spec fn deadline_after(now_ms: u64) -> u64 {
    if now_ms + REQUEST_TIMEOUT_MS > u64::MAX {
        u64::MAX
    } else {
        (now_ms + REQUEST_TIMEOUT_MS) as u64
    }
}

/// Whether a request has run out of time.
pub open spec fn expired(request: PendingRequest, now_ms: u64) -> bool {
    match request.deadline_ms {
        Some(deadline) => now_ms >= deadline,
        None => false,
    }
}

/// Whether a request holds a place on the bus.
pub open spec fn holds_place(
    request: PendingRequest,
    places: Seq<Option<Seq<(u64, TimerPacketView)>>>,
) -> bool {
    match request.place {
        Some(id) => id < places.len() && places[id as int] is Some,
        None => false,
    }
}

/// Whether every place of the bus is taken.
pub open spec fn bus_full(places: Seq<Option<Seq<(u64, TimerPacketView)>>>) -> bool {
    places.len() == MAX_SUBSCRIBERS && taken_below(places, MAX_SUBSCRIBERS as int)
}

/// Draws eight bytes with `getrandom::getrandom` and reads them as a
/// big-endian number. The result is random, so nothing is stated of it; an
/// error of the source leaves the bytes as they are.
#[verifier::external_body]
fn random_tag() -> (tag: u64) {
    let mut bytes = [0u8; 8];
    let _ = getrandom::getrandom(&mut bytes);
    u64::from_be_bytes(bytes)
}

/// Sends a request under a given tag: wraps the message in a packet with
/// that tag and offers it to the outbound queue. The request that comes
/// back waits for the reply; with `timeout` it gives up 5000 ms after
/// `now_ms`.
pub fn send_tagged_request(
    queue: &mut OutboundQueue,
    tag: u64,
    packet: TimerPacketInner,
    timeout: bool,
    now_ms: u64,
) -> (sent: (PendingRequest, SendOutcome))
    ensures
        sent.0 == (PendingRequest {
            tag,
            deadline_ms: if timeout {
                Some(deadline_after(now_ms))
            } else {
                None
            },
            place: None,
            finished: false,
        }),
        queued_as(
            old(queue)@,
            final(queue)@,
            sent.1,
            TimerPacketView { tag: Some(tag), data: packet@ },
        ),
{
    let envelope = TimerPacket { tag: Some(tag), data: packet };
    let outcome = send_packet(queue, &envelope);
    let deadline_ms = if timeout {
        Some(now_ms.saturating_add(REQUEST_TIMEOUT_MS))
    } else {
        None
    };
    (PendingRequest { tag, deadline_ms, place: None, finished: false }, outcome)
}

/// Sends a request under a fresh random tag, with the timeout of 5000 ms.
pub fn send_request(queue: &mut OutboundQueue, packet: TimerPacketInner, now_ms: u64) -> (sent: (
    PendingRequest,
    SendOutcome,
))
    ensures
        sent.0.deadline_ms == Some(deadline_after(now_ms)),
        sent.0.place is None,
        !sent.0.finished,
        queued_as(
            old(queue)@,
            final(queue)@,
            sent.1,
            TimerPacketView { tag: Some(sent.0.tag), data: packet@ },
        ),
{
    let tag = random_tag();
    send_tagged_request(queue, tag, packet, true, now_ms)
}

/// The lowest free place at or after `from`, or the number of places where
/// none is free.
pub open spec fn free_place(places: Seq<Option<Seq<(u64, TimerPacketView)>>>, from: int) -> int
    decreases places.len() - from,
{
    if from < 0 || from >= places.len() {
        places.len() as int
    } else if places[from] is None {
        from
    } else {
        free_place(places, from + 1)
    }
}

/// A step of waiting: what it found, and the request and the bus after it.
pub struct Waited {
    pub wait: WaitView,
    pub request: PendingRequest,
    pub places: Seq<Option<Seq<(u64, TimerPacketView)>>>,
}

/// One step of waiting for the reply to a request.
///
/// A request without a place asks the bus for one; a full bus sends it away
/// for 500 ms. A request with a place goes through the packets that wait
/// there, oldest first: the first one under its tag is the reply, and all
/// others are dropped. A request whose deadline has passed, and that has
/// found no reply in this step, times out. A request that ends gives its
/// place back.
pub open spec fn waited(
    request: PendingRequest,
    places: Seq<Option<Seq<(u64, TimerPacketView)>>>,
    now_ms: u64,
) -> Waited {
    let ended = PendingRequest { place: None, finished: true, ..request };
    if request.finished {
        Waited { wait: WaitView::Finished, request, places }
    } else if !holds_place(request, places) {
        if expired(request, now_ms) {
            Waited { wait: WaitView::TimedOut, request: ended, places }
        } else if bus_full(places) {
            Waited {
                wait: WaitView::RetryAfter(SUBSCRIBE_RETRY_MS),
                request: PendingRequest { place: None, ..request },
                places,
            }
        } else {
            let id = free_place(places, 0);
            Waited {
                wait: WaitView::Pending,
                request: PendingRequest { place: Some(id as usize), ..request },
                places: if id < places.len() {
                    places.update(id, Some(Seq::empty()))
                } else {
                    places.push(Some(Seq::empty()))
                },
            }
        }
    } else {
        let id = request.place->Some_0 as int;
        let pending = places[id]->Some_0;
        let at = first_tagged(pending, request.tag, 0);
        if at < pending.len() {
            Waited {
                wait: WaitView::Ready(pending[at].1),
                request: ended,
                places: places.update(id, None),
            }
        } else if expired(request, now_ms) {
            Waited { wait: WaitView::TimedOut, request: ended, places: places.update(id, None) }
        } else {
            Waited { wait: WaitView::Pending, request, places: places.update(id, Some(Seq::empty())) }
        }
    }
}

/// The place that only taken places come before is the lowest free place.
pub proof fn lemma_free_place(places: Seq<Option<Seq<(u64, TimerPacketView)>>>, id: int, from: int)
    requires
        0 <= from <= id <= places.len(),
        taken_below(places, id),
        id < places.len() ==> places[id] is None,
    ensures
        free_place(places, from) == id,
    decreases id - from,
{
    if from < id {
        lemma_free_place(places, id, from + 1);
    }
}

/// Takes one step of waiting for the reply to a request: see [`waited`].
pub fn wait_for_tagged_response(
    request: &mut PendingRequest,
    bus: &mut TaggedBus,
    now_ms: u64,
) -> (wait: Wait)
    ensures
        (Waited { wait: wait@, request: *final(request), places: final(bus)@ }) == waited(
            *old(request),
            old(bus)@,
            now_ms,
        ),
        old(bus)@.len() <= MAX_SUBSCRIBERS,
        final(bus)@.len() <= MAX_SUBSCRIBERS,
{
    let held = match request.place {
        Some(id) => bus.is_subscribed(id),
        // No bus has a place at this index.
        None => bus.is_subscribed(MAX_SUBSCRIBERS),
    };
    if request.finished {
        return Wait::Finished;
    }
    let late = match request.deadline_ms {
        Some(deadline) => now_ms >= deadline,
        None => false,
    };
    if !held {
        if late {
            request.finished = true;
            request.place = None;
            return Wait::TimedOut;
        }
        return match bus.subscribe() {
            Ok(id) => {
                proof {
                    lemma_free_place(old(bus)@, id as int, 0);
                }
                request.place = Some(id);
                Wait::Pending
            },
            Err(_) => {
                request.place = None;
                Wait::RetryAfter(SUBSCRIBE_RETRY_MS)
            },
        };
    }
    let id = request.place.unwrap();
    match bus.take_tagged(id, request.tag) {
        Some(reply) => {
            bus.unsubscribe(id);
            assert(bus@ =~= old(bus)@.update(id as int, None));
            request.finished = true;
            request.place = None;
            Wait::Ready(reply)
        },
        None => {
            if late {
                bus.unsubscribe(id);
                assert(bus@ =~= old(bus)@.update(id as int, None));
                request.finished = true;
                request.place = None;
                Wait::TimedOut
            } else {
                Wait::Pending
            }
        },
    }
}

/// What a step of waiting means for the caller of the request: a reply is
/// read as the reply shape that the caller expects, and a failure that the
/// server reported comes out as that failure; a timeout is an error that
/// does not ask for the clock to be set; and anything else is no result
/// yet.
pub fn resolve<T: FromPacket>(wait: Wait) -> (result: Option<Result<T, ApiError>>)
    ensures
        match wait {
            Wait::Ready(reply) => match result {
                Some(Ok(value)) => T::reply(reply@) == Ok::<T::V, ApiErrorView>(value@)
                    && !(reply@.data is ApiError),
                Some(Err(error)) => T::reply(reply@) == Err::<T::V, ApiErrorView>(error@) && (
                reply@.data matches TimerPacketInnerView::ApiError(reported) ==> error@
                    == reported),
                None => false,
            },
            Wait::TimedOut => match result {
                Some(Err(error)) => error@ == (ApiErrorView {
                    message: timeout_message(),
                    should_reset_time: false,
                }),
                _ => false,
            },
            _ => result is None,
        },
{
    match wait {
        Wait::Ready(reply) => Some(T::from_packet(reply)),
        Wait::TimedOut => Some(Err(timeout_error())),
        _ => None,
    }
}

/// The packets that wait at the place of a request.
pub open spec fn pending_at(
    request: PendingRequest,
    places: Seq<Option<Seq<(u64, TimerPacketView)>>>,
) -> Seq<(u64, TimerPacketView)> {
    places[request.place->Some_0 as int]->Some_0
}

/// A request gets only a reply that was broadcast under its tag: the reply
/// of a step is the first packet under the tag that waits at the request's
/// place, whatever was broadcast under other tags before it.
pub proof fn lemma_reply_carries_the_tag(
    request: PendingRequest,
    places: Seq<Option<Seq<(u64, TimerPacketView)>>>,
    now_ms: u64,
)
    ensures
        waited(request, places, now_ms).wait matches WaitView::Ready(reply) ==> {
            &&& holds_place(request, places)
            &&& exists|at: int|
                {
                    &&& 0 <= at < pending_at(request, places).len()
                    &&& #[trigger] pending_at(request, places)[at] == (request.tag, reply)
                    &&& forall|k: int|
                        0 <= k < at ==> (#[trigger] pending_at(request, places)[k]).0
                            != request.tag
                }
        },
{
    if !request.finished && holds_place(request, places) {
        let pending = pending_at(request, places);
        lemma_first_tagged(pending, request.tag, 0);
        let at = first_tagged(pending, request.tag, 0);
        if at < pending.len() {
            assert(pending[at] == (request.tag, pending[at].1));
        }
    }
}

/// A request with a deadline does not wait for ever: a step at or after the
/// deadline that finds no reply ends the request in a timeout, and the
/// request holds no place afterwards.
pub proof fn lemma_silence_times_out(
    request: PendingRequest,
    places: Seq<Option<Seq<(u64, TimerPacketView)>>>,
    now_ms: u64,
)
    requires
        !request.finished,
        expired(request, now_ms),
    ensures
        ({
            let step = waited(request, places, now_ms);
            &&& step.wait is TimedOut || step.wait is Ready
            &&& step.request.finished
            &&& step.request.place is None
            &&& step.wait is Ready ==> holds_place(request, places)
        }),
{
}

/// A request sent at `sent_ms` with the timeout has run out of time 5000 ms
/// later.
pub proof fn lemma_deadline_is_five_seconds(sent_ms: u64, now_ms: u64, request: PendingRequest)
    requires
        request.deadline_ms == Some(deadline_after(sent_ms)),
        now_ms >= sent_ms + REQUEST_TIMEOUT_MS,
    ensures
        expired(request, now_ms),
{
}

/// A request that has just taken a place holds it: the next step looks at
/// the packets that wait there.
pub proof fn lemma_new_place_is_held(
    request: PendingRequest,
    places: Seq<Option<Seq<(u64, TimerPacketView)>>>,
    now_ms: u64,
)
    requires
        places.len() <= MAX_SUBSCRIBERS,
        !request.finished,
        !holds_place(request, places),
        !expired(request, now_ms),
        !bus_full(places),
    ensures
        waited(request, places, now_ms).wait is Pending,
        holds_place(waited(request, places, now_ms).request, waited(request, places, now_ms).places),
        pending_at(waited(request, places, now_ms).request, waited(request, places, now_ms).places)
            == Seq::<(u64, TimerPacketView)>::empty(),
{
    lemma_free_place_in_range(places, 0);
}

/// The lowest free place is an index of the bus or the number of its
/// places, and every place before it is taken.
pub proof fn lemma_free_place_in_range(places: Seq<Option<Seq<(u64, TimerPacketView)>>>, from: int)
    requires
        0 <= from <= places.len(),
    ensures
        from <= free_place(places, from) <= places.len(),
        free_place(places, from) < places.len() ==> places[free_place(places, from)] is None,
    decreases places.len() - from,
{
    if from < places.len() && places[from] is Some {
        lemma_free_place_in_range(places, from + 1);
    }
}

/// A full bus loses no request: the step changes neither the request, which
/// goes on waiting, nor the bus, and asks for another step in 500 ms.
pub proof fn lemma_full_bus_defers(
    request: PendingRequest,
    places: Seq<Option<Seq<(u64, TimerPacketView)>>>,
    now_ms: u64,
)
    requires
        !request.finished,
        request.place is None,
        !expired(request, now_ms),
        bus_full(places),
    ensures
        waited(request, places, now_ms) == (Waited {
            wait: WaitView::RetryAfter(SUBSCRIBE_RETRY_MS),
            request,
            places,
        }),
{
}

} // verus!
