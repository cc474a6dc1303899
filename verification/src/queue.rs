//! The outbound queue: a bounded first-in-first-out line of frames that any
//! task may add to and that the connection manager alone drains.

use crate::codec::{decoded, encode_checked, packet_doc, round_trips};
use crate::frame::{Frame, FrameView};
use crate::json::json_text;
use crate::structs::{TimerPacket, TimerPacketView};
use embassy_sync::blocking_mutex::raw::NoopRawMutex;
use embassy_sync::channel::{Channel, TrySendError};
use vstd::prelude::*;

verus! {

/// The number of frames that the outbound queue holds at most.
pub const FRAME_CHANNEL_CAPACITY: usize = 10;

/// The frames that wait to be written, oldest first. They are held in a
/// channel of `embassy_sync`, which Verus cannot look into.
#[verifier::external_body]
pub struct OutboundQueue {
    channel: Channel<NoopRawMutex, Frame, FRAME_CHANNEL_CAPACITY>,
}

/// The frames that the channel of a queue holds, oldest first.
pub uninterp spec fn queued_frames(queue: OutboundQueue) -> Seq<FrameView>;

impl View for OutboundQueue {
    type V = Seq<FrameView>;

    open spec fn view(&self) -> Seq<FrameView> {
        queued_frames(*self)
    }
}

/// Makes the channel with `embassy_sync::channel::Channel::new`: a new
/// channel holds nothing.
#[verifier::external_body]
fn channel_new() -> (queue: OutboundQueue)
    ensures
        queued_frames(queue) == Seq::<FrameView>::empty(),
{
    OutboundQueue { channel: Channel::new() }
}

/// Calls `embassy_sync::channel::Channel::len`: the number of messages in
/// the channel, which is never above the capacity that the channel was
/// declared with.
#[verifier::external_body]
fn channel_len(queue: &OutboundQueue) -> (count: usize)
    ensures
        count == queued_frames(*queue).len(),
        FRAME_CHANNEL_CAPACITY >= count,
{
    queue.channel.len()
}

/// Calls `embassy_sync::channel::Channel::try_send`: the message goes to
/// the back of the channel, or, where the channel holds as many messages as
/// its capacity, comes back in the error and the channel stays as it is.
#[verifier::external_body]
fn channel_try_send(queue: &mut OutboundQueue, frame: Frame) -> (outcome: Result<(), Frame>)
    ensures
        match outcome {
            Ok(()) => FRAME_CHANNEL_CAPACITY > queued_frames(*old(queue)).len() && queued_frames(
                *final(queue),
            ) == queued_frames(*old(queue)).push(frame@),
            Err(back) => queued_frames(*old(queue)).len() == FRAME_CHANNEL_CAPACITY && back
                == frame && queued_frames(*final(queue)) == queued_frames(*old(queue)),
        },
{
    match queue.channel.try_send(frame) {
        Ok(()) => Ok(()),
        Err(TrySendError::Full(back)) => Err(back),
    }
}

/// Calls `embassy_sync::channel::Channel::try_receive`: the message at the
/// front leaves the channel, or, where the channel is empty, there is an
/// error and the channel stays as it is.
#[verifier::external_body]
fn channel_try_receive(queue: &mut OutboundQueue) -> (frame: Option<Frame>)
    ensures
        match frame {
            Some(f) => queued_frames(*old(queue)).len() > 0 && f@ == queued_frames(*old(queue))[0]
                && queued_frames(*final(queue)) == queued_frames(*old(queue)).drop_first(),
            None => queued_frames(*old(queue)).len() == 0 && queued_frames(*final(queue))
                == queued_frames(*old(queue)),
        },
{
    queue.channel.try_receive().ok()
}

/// Calls `embassy_sync::channel::Channel::clear`: afterwards the channel
/// holds nothing.
#[verifier::external_body]
fn channel_clear(queue: &mut OutboundQueue)
    ensures
        queued_frames(*final(queue)) == Seq::<FrameView>::empty(),
{
    queue.channel.clear()
}

/// What became of a packet handed to [`send_packet`].
#[derive(Debug, PartialEq, Eq)]
pub enum SendOutcome {
    /// The packet waits in the queue as a text frame.
    Queued,
    /// The queue was full; here is the frame to offer again.
    Full(Frame),
    /// The packet does not go through text unharmed: it holds a reading
    /// that cannot be written out, or its text does not decode to it again.
    NotEncodable,
}

impl OutboundQueue {
    /// An empty queue.
    pub fn new() -> (queue: Self)
        ensures
            queue@ == Seq::<FrameView>::empty(),
    {
        channel_new()
    }

    /// The number of frames that wait.
    pub fn len(&self) -> (count: usize)
        ensures
            count == self@.len(),
            count <= FRAME_CHANNEL_CAPACITY,
    {
        channel_len(self)
    }

    /// Whether no frame waits.
    pub fn is_empty(&self) -> (empty: bool)
        ensures
            empty == (self@.len() == 0),
    {
        channel_len(self) == 0
    }

    /// Whether the queue takes no further frame.
    pub fn is_full(&self) -> (full: bool)
        ensures
            full == (self@.len() == FRAME_CHANNEL_CAPACITY),
    {
        channel_len(self) >= FRAME_CHANNEL_CAPACITY
    }

    /// Adds a frame at the back. A full queue hands the frame back and
    /// stays as it is.
    pub fn try_send(&mut self, frame: Frame) -> (outcome: Result<(), Frame>)
        ensures
            match outcome {
                Ok(()) => old(self)@.len() < FRAME_CHANNEL_CAPACITY && final(self)@ == old(
                    self,
                )@.push(frame@),
                Err(back) => old(self)@.len() == FRAME_CHANNEL_CAPACITY && back == frame
                    && final(self)@ == old(self)@,
            },
    {
        channel_try_send(self, frame)
    }

    /// Takes the oldest frame. `None` exactly where the queue is empty.
    pub fn try_receive(&mut self) -> (frame: Option<Frame>)
        ensures
            match frame {
                Some(f) => old(self)@.len() > 0 && f@ == old(self)@[0] && final(self)@ == old(
                    self,
                )@.drop_first(),
                None => old(self)@.len() == 0 && final(self)@ == old(self)@,
            },
    {
        channel_try_receive(self)
    }

    /// Drops every frame that waits.
    pub fn clear(&mut self)
        ensures
            final(self)@ == Seq::<FrameView>::empty(),
    {
        channel_clear(self)
    }
}

/// Empties the outbound queue: frames that were not written yet are lost.
pub fn clear_frame_channel(queue: &mut OutboundQueue)
    ensures
        final(queue)@ == Seq::<FrameView>::empty(),
{
    queue.clear();
}

/// What offering a packet to a queue did: a packet that goes in does so as
/// the one text frame that decodes to the packet again.
pub open spec fn queued_as(
    before: Seq<FrameView>,
    after: Seq<FrameView>,
    outcome: SendOutcome,
    packet: TimerPacketView,
) -> bool {
    let text = json_text(packet_doc(packet));
    match outcome {
        SendOutcome::Queued => {
            &&& round_trips(packet)
            &&& decoded(text) == Some(packet)
            &&& before.len() < FRAME_CHANNEL_CAPACITY
            &&& after == before.push(FrameView::Text(text))
        },
        SendOutcome::Full(frame) => {
            &&& round_trips(packet)
            &&& before.len() == FRAME_CHANNEL_CAPACITY
            &&& frame@ == FrameView::Text(text)
            &&& after == before
        },
        SendOutcome::NotEncodable => !round_trips(packet) && after == before,
    }
}

/// Encodes a packet and puts it at the back of the outbound queue as a text
/// frame whose text decodes to the packet again. A packet that does not go
/// through text unharmed leaves the queue as it is, and so does a full
/// queue, which hands the encoded frame back.
pub fn send_packet(queue: &mut OutboundQueue, packet: &TimerPacket) -> (outcome: SendOutcome)
    ensures
        queued_as(old(queue)@, final(queue)@, outcome, packet@),
{
    match encode_checked(packet) {
        None => SendOutcome::NotEncodable,
        Some(text) => match queue.try_send(Frame::Text(text)) {
            Ok(()) => SendOutcome::Queued,
            Err(frame) => SendOutcome::Full(frame),
        },
    }
}

} // verus!
