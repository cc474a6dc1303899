//! The work on the stream itself: the upgrade request that opens a session,
//! the reading of its answer, and the reading of frames once the session is
//! open.

use crate::bus::{TaggedBus, has_room, published};
use crate::frame::{
    CLIENT_MASK, Frame, FrameView, RxFault, TX_CAPACITY, UPGRADE_KEY_LEN, carries, encode_frame,
    opcode, rx_advance,
    rx_http_status, rx_items, rx_items_after, rx_next_frame, rx_status_after, sendable,
    upgrade_head, upgrade_tail, upgrade_wire, wire_len,
};
use crate::inbound::{
    Effect, EffectView, LogEvent, LogEventView, SessionFault, effects_view, flags_after,
    frame_effects, handle_frame, shared_after,
};
use crate::codec::decoded;
use crate::locator::ServerLocator;
use crate::manager::UpgradeRead;
use crate::ota::OtaApplier;
use crate::queue::{FRAME_CHANNEL_CAPACITY, OutboundQueue};
use crate::state::{DeviceFlags, SignaledGlobalStateInner};
use vstd::prelude::*;
use vstd::string::StringExecFns;
use ws_framer::WsRxFramer;

verus! {

/// What the device tells the server of itself when it asks for a session.
#[derive(Debug, Clone, PartialEq, Eq)]
pub struct DeviceIdentity {
    pub hardware_id: u32,
    pub firmware_version: String,
    pub hardware_revision: String,
    pub firmware_name: String,
}

/// The character of a hexadecimal digit, in upper case.
pub open spec fn hex_char(digit: int) -> char {
    if digit == 0 {
        '0'
    } else if digit == 1 {
        '1'
    } else if digit == 2 {
        '2'
    } else if digit == 3 {
        '3'
    } else if digit == 4 {
        '4'
    } else if digit == 5 {
        '5'
    } else if digit == 6 {
        '6'
    } else if digit == 7 {
        '7'
    } else if digit == 8 {
        '8'
    } else if digit == 9 {
        '9'
    } else if digit == 10 {
        'A'
    } else if digit == 11 {
        'B'
    } else if digit == 12 {
        'C'
    } else if digit == 13 {
        'D'
    } else if digit == 14 {
        'E'
    } else {
        'F'
    }
}

/// A number in hexadecimal, in upper case and without leading zeros.
pub open spec fn hex_upper(number: nat) -> Seq<char>
    decreases number,
{
    if number < 16 {
        seq![hex_char(number as int)]
    } else {
        hex_upper(number / 16).push(hex_char((number % 16) as int))
    }
}

fn hex_digit(digit: u32) -> (text: &'static str)
    requires
        digit < 16,
    ensures
        text@ == seq![hex_char(digit as int)],
{
    let text = if digit == 0 {
        "0"
    } else if digit == 1 {
        "1"
    } else if digit == 2 {
        "2"
    } else if digit == 3 {
        "3"
    } else if digit == 4 {
        "4"
    } else if digit == 5 {
        "5"
    } else if digit == 6 {
        "6"
    } else if digit == 7 {
        "7"
    } else if digit == 8 {
        "8"
    } else if digit == 9 {
        "9"
    } else if digit == 10 {
        "A"
    } else if digit == 11 {
        "B"
    } else if digit == 12 {
        "C"
    } else if digit == 13 {
        "D"
    } else if digit == 14 {
        "E"
    } else {
        "F"
    };
    proof {
        reveal_strlit("0");
        reveal_strlit("1");
        reveal_strlit("2");
        reveal_strlit("3");
        reveal_strlit("4");
        reveal_strlit("5");
        reveal_strlit("6");
        reveal_strlit("7");
        reveal_strlit("8");
        reveal_strlit("9");
        reveal_strlit("A");
        reveal_strlit("B");
        reveal_strlit("C");
        reveal_strlit("D");
        reveal_strlit("E");
        reveal_strlit("F");
    }
    text
}

/// Writes a number in hexadecimal.
pub fn to_hex(number: u32) -> (text: String)
    ensures
        text@ == hex_upper(number as nat),
    decreases number,
{
    if number < 16 {
        hex_digit(number).to_owned()
    } else {
        let mut text = to_hex(number / 16);
        text.append(hex_digit(number % 16));
        text
    }
}

/// The target of the upgrade request: the configured path with the
/// hardware id in hexadecimal, the firmware version, the hardware revision
/// and the firmware's name as query parameters.
pub open spec fn upgrade_path(
    path: Seq<char>,
    hardware_id: u32,
    firmware_version: Seq<char>,
    hardware_revision: Seq<char>,
    firmware_name: Seq<char>,
) -> Seq<char> {
    path + "?id="@ + hex_upper(hardware_id as nat) + "&ver="@ + firmware_version + "&hw="@
        + hardware_revision + "&firmware="@ + firmware_name
}

/// Builds the target of the upgrade request.
pub fn upgrade_target(locator: &ServerLocator, identity: &DeviceIdentity) -> (target: String)
    ensures
        target@ == upgrade_path(
            locator.path@,
            identity.hardware_id,
            identity.firmware_version@,
            identity.hardware_revision@,
            identity.firmware_name@,
        ),
{
    let mut target = locator.path.clone();
    target.append("?id=");
    let id = to_hex(identity.hardware_id);
    target.append(id.as_str());
    target.append("&ver=");
    target.append(identity.firmware_version.as_str());
    target.append("&hw=");
    target.append(identity.hardware_revision.as_str());
    target.append("&firmware=");
    target.append(identity.firmware_name.as_str());
    target
}

/// Builds the one request that asks the server to open a session, for the
/// caller to write to the stream. The request is the head for the server's
/// host and the target of [`upgrade_target`], a fresh key, and the tail.
/// `None` exactly where the request does not fit the transmit buffer.
pub fn upgrade_request(locator: &ServerLocator, identity: &DeviceIdentity) -> (request: Option<
    Vec<u8>,
>)
    ensures
        ({
            let head = upgrade_head(
                locator.host@,
                upgrade_path(
                    locator.path@,
                    identity.hardware_id,
                    identity.firmware_version@,
                    identity.hardware_revision@,
                    identity.firmware_name@,
                ),
            );
            &&& request is Some <==> head.len() + UPGRADE_KEY_LEN + upgrade_tail().len()
                <= TX_CAPACITY
            &&& request matches Some(bytes) ==> {
                &&& bytes@.len() == head.len() + UPGRADE_KEY_LEN + upgrade_tail().len()
                &&& bytes@.take(head.len() as int) == head
                &&& bytes@.skip(head.len() + UPGRADE_KEY_LEN) == upgrade_tail()
            }
        }),
{
    let target = upgrade_target(locator, identity);
    upgrade_wire(locator.host.as_str(), target.as_str(), CLIENT_MASK, TX_CAPACITY)
}

/// What the receiver's report on the answer to the upgrade request means:
/// a status code is the answer, whatever the code; a head that is not
/// complete yet is no answer yet; and a fault ends the attempt, because the
/// receiver drops all that follows a response that it could not read.
pub open spec fn answer_for(status: Option<Result<u16, RxFault>>) -> UpgradeRead {
    match status {
        Some(Ok(code)) => UpgradeRead::Code(code),
        Some(Err(_)) => UpgradeRead::Failed,
        None => UpgradeRead::Partial,
    }
}

/// Reads the receiver's report on the answer to the upgrade request.
pub fn answer_of(status: Option<Result<u16, RxFault>>) -> (answer: UpgradeRead)
    ensures
        answer == answer_for(status),
{
    match status {
        Some(Ok(code)) => UpgradeRead::Code(code),
        Some(Err(_)) => UpgradeRead::Failed,
        None => UpgradeRead::Partial,
    }
}

/// Takes note of a read of the answer to the upgrade request: `read` is the
/// number of bytes that went into the receiver's buffer, or `None` for a
/// read that failed. A failed read and a read without bytes end the
/// attempt, and the receiver is left alone. Any other read is handed to the
/// receiver, and the result is what the receiver's report means.
pub fn upgrade_answered(rx: &mut WsRxFramer<'_>, read: Option<usize>) -> (answer: UpgradeRead)
    ensures
        read is None || read == Some(0usize) ==> answer is Failed && *final(rx) == *old(rx),
        !(read is None || read == Some(0usize)) ==> answer == answer_for(
            rx_status_after(*old(rx), read->Some_0),
        ),
{
    match read {
        None => UpgradeRead::Failed,
        Some(count) => {
            if count == 0 {
                return UpgradeRead::Failed;
            }
            rx_advance(rx, count);
            answer_of(rx_http_status(rx))
        },
    }
}

/// The state of the session while frames are applied one after another:
/// the effects so far, the fault that ended the session if one did, and the
/// shared state and flags.
pub struct Replay {
    pub effects: Seq<EffectView>,
    pub ended: Option<SessionFault>,
    pub shared: SignaledGlobalStateInner,
    pub flags: DeviceFlags,
}

/// One more item from the receiver: a dropped frame is logged, a close
/// frame ends the session, and any other frame is applied. After the end of
/// the session nothing is applied.
pub open spec fn replay_item(
    before: Replay,
    item: Result<FrameView, RxFault>,
    applier: OtaApplier,
    own_firmware: Seq<char>,
    uptime_secs: u64,
) -> Replay {
    if before.ended is Some {
        before
    } else {
        match item {
            Err(fault) => Replay {
                effects: before.effects.push(EffectView::Log(LogEventView::DroppedFrame(fault))),
                ..before
            },
            Ok(FrameView::Close(_, _)) => Replay {
                ended: Some(SessionFault::ClosedByPeer),
                ..before
            },
            Ok(FrameView::Text(text)) => Replay {
                effects: before.effects + frame_effects(
                    FrameView::Text(text),
                    before.flags.ota,
                    applier,
                    own_firmware,
                ),
                ended: None,
                shared: match decoded(text) {
                    Some(packet) => shared_after(before.shared, packet.data),
                    None => before.shared,
                },
                flags: match decoded(text) {
                    Some(packet) => flags_after(before.flags, packet.data, uptime_secs),
                    None => before.flags,
                },
            },
            Ok(frame) => Replay {
                effects: before.effects + frame_effects(
                    frame,
                    before.flags.ota,
                    applier,
                    own_firmware,
                ),
                ..before
            },
        }
    }
}

/// A row of items from the receiver, applied in order.
pub open spec fn replay(
    start: Replay,
    items: Seq<Result<FrameView, RxFault>>,
    applier: OtaApplier,
    own_firmware: Seq<char>,
    uptime_secs: u64,
) -> Replay
    decreases items.len(),
{
    if items.len() == 0 {
        start
    } else {
        replay_item(
            replay(start, items.drop_last(), applier, own_firmware, uptime_secs),
            items.last(),
            applier,
            own_firmware,
            uptime_secs,
        )
    }
}

/// The index of the first close frame at or after `from`, or the number of
/// items where there is none.
pub open spec fn first_close(items: Seq<Result<FrameView, RxFault>>, from: int) -> int
    decreases items.len() - from,
{
    if from < 0 || from >= items.len() {
        items.len() as int
    } else if items[from] matches Ok(FrameView::Close(_, _)) {
        from
    } else {
        first_close(items, from + 1)
    }
}

/// How many items of a row are taken from the receiver: all up to and with
/// the first close frame, or all where there is none.
pub open spec fn taken(items: Seq<Result<FrameView, RxFault>>) -> int {
    if first_close(items, 0) < items.len() {
        first_close(items, 0) + 1
    } else {
        items.len() as int
    }
}

/// What a read on the open session came to.
#[derive(Debug, PartialEq, Eq)]
pub struct ReadOutcome {
    /// What there is to do, in order.
    pub effects: Vec<Effect>,
    /// Why the session has to end, where it has to.
    pub ended: Option<SessionFault>,
}

/// Takes note of a read on the open session: `read` is the number of bytes
/// that went into the receiver's buffer, or `None` for a read that failed.
///
/// A failed read and a read without bytes end the session and change
/// nothing. Any other read is handed to the receiver, and the items that
/// the receiver has complete are taken and applied in order, up to and with
/// the first close frame; what comes behind a close frame stays with the
/// receiver.
pub fn session_read(
    rx: &mut WsRxFramer<'_>,
    read: Option<usize>,
    shared: &mut SignaledGlobalStateInner,
    flags: &mut DeviceFlags,
    applier: &OtaApplier,
    own_firmware: &str,
    uptime_secs: u64,
) -> (outcome: ReadOutcome)
    ensures
        read is None || read == Some(0usize) ==> outcome.ended == Some(SessionFault::ReadEnded)
            && outcome.effects@.len() == 0 && *final(shared) == *old(shared) && *final(flags)
            == *old(flags) && *final(rx) == *old(rx),
        !(read is None || read == Some(0usize)) ==> ({
            let all = rx_items_after(*old(rx), read->Some_0);
            &&& rx_items(*final(rx)) == all.skip(taken(all))
            &&& replay(
                Replay {
                    effects: Seq::empty(),
                    ended: None,
                    shared: *old(shared),
                    flags: *old(flags),
                },
                all.take(taken(all)),
                *applier,
                own_firmware@,
                uptime_secs,
            ) == (Replay {
                effects: effects_view(outcome.effects@),
                ended: outcome.ended,
                shared: *final(shared),
                flags: *final(flags),
            })
        }),
{
    let count = match read {
        None => 0,
        Some(count) => count,
    };
    if count == 0 {
        return ReadOutcome { effects: Vec::new(), ended: Some(SessionFault::ReadEnded) };
    }
    rx_advance(rx, count);
    let ghost all = rx_items(*rx);
    let ghost start = Replay {
        effects: Seq::empty(),
        ended: None,
        shared: *shared,
        flags: *flags,
    };
    let ghost mut n: int = 0;
    let mut effects: Vec<Effect> = Vec::new();
    let mut ended: Option<SessionFault> = None;
    assert(effects_view(effects@) =~= Seq::<EffectView>::empty());
    while ended.is_none()
        invariant
            0 <= n <= all.len(),
            rx_items(*rx) == all.skip(n),
            ended is None ==> first_close(all, 0) == first_close(all, n),
            ended is Some ==> first_close(all, 0) == n - 1 && n - 1 < all.len(),
            replay(start, all.take(n), *applier, own_firmware@, uptime_secs) == (Replay {
                effects: effects_view(effects@),
                ended,
                shared: *shared,
                flags: *flags,
            }),
        ensures
            n == taken(all),
        decreases all.len() - n,
    {
        let next = rx_next_frame(rx);
        if next.is_none() {
            break ;
        }
        proof {
            assert(all.take(n + 1).drop_last() =~= all.take(n));
        }
        match next.unwrap() {
            Err(fault) => {
                let ghost old_effects = effects@;
                effects.push(Effect::Log(LogEvent::DroppedFrame(fault)));
                assert(effects_view(effects@) =~= effects_view(old_effects).push(
                    EffectView::Log(LogEventView::DroppedFrame(fault)),
                ));
            },
            Ok(frame) => {
                let ghost old_effects = effects@;
                match handle_frame(frame, shared, flags, applier, own_firmware, uptime_secs) {
                    Ok(mut more) => {
                        let ghost added = more@;
                        effects.append(&mut more);
                        assert(effects_view(effects@) =~= effects_view(old_effects)
                            + effects_view(added));
                    },
                    Err(fault) => {
                        ended = Some(fault);
                    },
                }
            },
        }
        proof {
            n = n + 1;
        }
    }
    ReadOutcome { effects, ended }
}

/// Puts the probe that opens a session on the outbound queue. A full queue
/// hands the probe back and stays as it is.
pub fn keep_alive(queue: &mut OutboundQueue) -> (outcome: Result<(), Frame>)
    ensures
        match outcome {
            Ok(()) => old(queue)@.len() < FRAME_CHANNEL_CAPACITY && final(queue)@ == old(queue)@.push(FrameView::Ping(Seq::empty())),
            Err(back) => old(queue)@.len() == FRAME_CHANNEL_CAPACITY && back@ == FrameView::Ping(
                Seq::empty(),
            ) && final(queue)@ == old(queue)@,
        },
{
    let empty: Vec<u8> = Vec::new();
    queue.try_send(Frame::Ping(empty))
}

/// What the write side of the session has to do next.
#[derive(Debug, PartialEq, Eq)]
pub enum NextWrite {
    /// No frame waits.
    Idle,
    /// Write these bytes to the stream: they are the oldest frame.
    Bytes(Vec<u8>),
    /// The oldest frame cannot be sent and was dropped.
    Dropped(Frame),
}

/// Takes the oldest frame from the outbound queue and encodes it for the
/// stream. A frame that cannot be sent leaves the queue all the same.
pub fn next_write(queue: &mut OutboundQueue) -> (next: NextWrite)
    ensures
        match next {
            NextWrite::Idle => old(queue)@.len() == 0 && final(queue)@ == old(queue)@,
            NextWrite::Bytes(bytes) => {
                &&& old(queue)@.len() > 0
                &&& final(queue)@ == old(queue)@.drop_first()
                &&& sendable(old(queue)@[0])
                &&& carries(bytes@, old(queue)@[0], CLIENT_MASK)
                &&& bytes@.len() == wire_len(old(queue)@[0], CLIENT_MASK)
                &&& bytes@.len() <= TX_CAPACITY
                &&& bytes@[0] == 0x80 + opcode(old(queue)@[0])
            },
            NextWrite::Dropped(frame) => {
                &&& old(queue)@.len() > 0
                &&& final(queue)@ == old(queue)@.drop_first()
                &&& frame@ == old(queue)@[0]
                &&& !(sendable(frame@) && wire_len(frame@, CLIENT_MASK) <= TX_CAPACITY)
            },
        },
{
    match queue.try_receive() {
        None => NextWrite::Idle,
        Some(frame) => match encode_frame(&frame) {
            Some(bytes) => NextWrite::Bytes(bytes),
            None => NextWrite::Dropped(frame),
        },
    }
}

/// What became of an effect that was handed to [`apply_effect`].
#[derive(Debug, PartialEq, Eq)]
pub enum Applied {
    /// The effect is done.
    Done,
    /// The queue or the bus has no room: offer the effect again later.
    Blocked(Effect),
    /// The effect is the caller's to perform: flash, indicator, restart, log.
    Left(Effect),
}

/// Performs an effect as far as it concerns the outbound queue or the
/// response bus, and leaves every other effect to the caller.
pub fn apply_effect(effect: Effect, queue: &mut OutboundQueue, bus: &mut TaggedBus) -> (applied:
    Applied)
    ensures
        match effect {
            Effect::Enqueue(frame) => {
                &&& final(bus)@ == old(bus)@
                &&& if old(queue)@.len() < FRAME_CHANNEL_CAPACITY {
                    applied is Done && final(queue)@ == old(queue)@.push(frame@)
                } else {
                    applied == Applied::Blocked(effect) && final(queue)@ == old(queue)@
                }
            },
            Effect::Publish(tag, packet) => {
                &&& final(queue)@ == old(queue)@
                &&& if has_room(old(bus)@) {
                    applied is Done && final(bus)@ == published(old(bus)@, tag, packet@)
                } else {
                    applied == Applied::Blocked(effect) && final(bus)@ == old(bus)@
                }
            },
            _ => applied == Applied::Left(effect) && final(queue)@ == old(queue)@ && final(bus)@
                == old(bus)@,
        },
{
    match effect {
        Effect::Enqueue(frame) => match queue.try_send(frame) {
            Ok(()) => Applied::Done,
            Err(frame) => Applied::Blocked(Effect::Enqueue(frame)),
        },
        Effect::Publish(tag, packet) => match bus.try_publish(tag, packet) {
            Ok(()) => Applied::Done,
            Err(packet) => Applied::Blocked(Effect::Publish(tag, packet)),
        },
        other => Applied::Left(other),
    }
}

} // verus!
