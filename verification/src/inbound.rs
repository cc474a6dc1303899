//! What an inbound frame means: which state it changes and what there is to
//! do about it. The caller does what the effects say, in their order.

use crate::codec::{decode_packet, decoded, encode_packet, lemma_packet_doc_canonical, packet_doc};
use crate::frame::{Frame, FrameView, RxFault};
use crate::json::json_text;
use crate::ota::{ChunkStep, FlashBegin, OtaApplier, VerifyStep, chunk_step, verify_step};
use crate::state::{DeviceFlags, SignaledGlobalStateInner, epoch_base_for};
use crate::structs::{
    ApiError, ApiErrorView, TimerPacket, TimerPacketInner, TimerPacketInnerView, TimerPacketView,
};
use vstd::prelude::*;

verus! {

/// The number of pulses, and the length of each in milliseconds, that mark
/// the start of an update.
pub const START_PULSES: u32 = 5;

/// The length of an indicator pulse during an update, in milliseconds.
pub const PULSE_MS: u64 = 25;

/// Something worth a line in the log.
#[derive(Debug, Clone, PartialEq, Eq)]
pub enum LogEvent {
    /// The server reported a failure.
    ApiError(ApiError),
    /// A text frame was no packet of the schema, and was dropped.
    UndecodableText,
    /// Received data was dropped by the framing layer.
    DroppedFrame(RxFault),
    /// The flash refused a chunk of the image; the update was given up.
    OtaWriteFailed,
    /// The complete image did not match its checksum; the update was given up.
    OtaVerifyFailed,
}

pub enum LogEventView {
    ApiError(ApiErrorView),
    UndecodableText,
    DroppedFrame(RxFault),
    OtaWriteFailed,
    OtaVerifyFailed,
}

impl View for LogEvent {
    type V = LogEventView;

    open spec fn view(&self) -> LogEventView {
        match self {
            LogEvent::ApiError(error) => LogEventView::ApiError(error@),
            LogEvent::UndecodableText => LogEventView::UndecodableText,
            LogEvent::DroppedFrame(fault) => LogEventView::DroppedFrame(*fault),
            LogEvent::OtaWriteFailed => LogEventView::OtaWriteFailed,
            LogEvent::OtaVerifyFailed => LogEventView::OtaVerifyFailed,
        }
    }
}

/// One thing for the caller to do.
#[derive(Debug, Clone, PartialEq, Eq)]
pub enum Effect {
    /// Put the frame at the back of the outbound queue, waiting for room.
    Enqueue(Frame),
    /// Hand the packet to every task that waits on the response bus.
    Publish(u64, TimerPacket),
    /// Declare the image to the flash and report how it went.
    BeginUpdate(FlashBegin),
    /// Write the chunk to the flash and report how it went.
    WriteChunk(Vec<u8>),
    /// Check the complete image and report how it went.
    VerifyImage,
    /// Pulse the indicator, without holding anything up.
    Pulse { count: u32, duration_ms: u64 },
    /// Restart the device.
    Restart,
    /// Write a line to the log.
    Log(LogEvent),
}

pub enum EffectView {
    Enqueue(FrameView),
    Publish(u64, TimerPacketView),
    BeginUpdate(FlashBegin),
    WriteChunk(Seq<u8>),
    VerifyImage,
    Pulse { count: u32, duration_ms: u64 },
    Restart,
    Log(LogEventView),
}

impl View for Effect {
    type V = EffectView;

    open spec fn view(&self) -> EffectView {
        match self {
            Effect::Enqueue(frame) => EffectView::Enqueue(frame@),
            Effect::Publish(tag, packet) => EffectView::Publish(*tag, packet@),
            Effect::BeginUpdate(begin) => EffectView::BeginUpdate(*begin),
            Effect::WriteChunk(data) => EffectView::WriteChunk(data@),
            Effect::VerifyImage => EffectView::VerifyImage,
            Effect::Pulse { count, duration_ms } => EffectView::Pulse {
                count: *count,
                duration_ms: *duration_ms,
            },
            Effect::Restart => EffectView::Restart,
            Effect::Log(event) => EffectView::Log(event@),
        }
    }
}

/// A list of effects as plain values.
pub open spec fn effects_view(effects: Seq<Effect>) -> Seq<EffectView> {
    Seq::new(effects.len(), |i: int| effects[i]@)
}

/// Why the open session has to end.
#[derive(Debug, Clone, Copy, PartialEq, Eq, Structural)]
pub enum SessionFault {
    /// A read gave no bytes: the peer has gone.
    ReadEnded,
    /// The peer sent a close frame.
    ClosedByPeer,
    /// The flash did not take the declaration of an image.
    FlashRefused,
}

/// The request to be registered that answers a server that does not know
/// the device.
pub open spec fn add_request(own_firmware: Seq<char>) -> TimerPacketView {
    TimerPacketView {
        tag: None,
        data: TimerPacketInnerView::Add { firmware_name: own_firmware },
    }
}

/// The frame that asks for the next chunk of an image.
pub open spec fn next_chunk_request() -> EffectView {
    EffectView::Enqueue(FrameView::Binary(Seq::empty()))
}

/// A tagged packet goes to the response bus, whatever it holds.
pub open spec fn broadcast_of(packet: TimerPacketView) -> Seq<EffectView> {
    match packet.tag {
        Some(tag) => seq![EffectView::Publish(tag, packet)],
        None => Seq::empty(),
    }
}

/// What a message calls for. Device settings of a device that is not
/// registered are answered with a request to be registered; a reported
/// failure is logged; an image for this firmware is declared to the flash,
/// and one for another firmware is passed over.
pub open spec fn message_effects(message: TimerPacketInnerView, own_firmware: Seq<char>) -> Seq<
    EffectView,
> {
    match message {
        TimerPacketInnerView::DeviceSettings { registered } => if registered {
            Seq::empty()
        } else {
            seq![
                EffectView::Enqueue(
                    FrameView::Text(json_text(packet_doc(add_request(own_firmware)))),
                ),
            ]
        },
        TimerPacketInnerView::ApiError(error) => seq![
            EffectView::Log(LogEventView::ApiError(error)),
        ],
        TimerPacketInnerView::StartUpdate {
            image_size,
            checksum,
            target_firmware_name,
            ..
        } => if target_firmware_name == own_firmware {
            seq![EffectView::BeginUpdate(FlashBegin { image_size, checksum })]
        } else {
            Seq::empty()
        },
        _ => Seq::empty(),
    }
}

/// What a packet calls for: the broadcast first, then what its message
/// calls for.
pub open spec fn packet_effects(packet: TimerPacketView, own_firmware: Seq<char>) -> Seq<
    EffectView,
> {
    broadcast_of(packet) + message_effects(packet.data, own_firmware)
}

/// The shared state after a packet: device settings say whether the device
/// is registered.
pub open spec fn shared_after(
    shared: SignaledGlobalStateInner,
    message: TimerPacketInnerView,
) -> SignaledGlobalStateInner {
    match message {
        TimerPacketInnerView::DeviceSettings { registered } => SignaledGlobalStateInner {
            device_registered: Some(registered),
            ..shared
        },
        _ => shared,
    }
}

/// The flags after a packet: a time announcement sets the clock.
pub open spec fn flags_after(
    flags: DeviceFlags,
    message: TimerPacketInnerView,
    uptime_secs: u64,
) -> DeviceFlags {
    match message {
        TimerPacketInnerView::EpochTime { current_epoch } => DeviceFlags {
            epoch_base: epoch_base_for(current_epoch, uptime_secs),
            ..flags
        },
        _ => flags,
    }
}

/// Applies a packet that arrived: broadcasts it if it is tagged, and acts on
/// its message. The two do not depend on each other.
pub fn handle_packet(
    packet: TimerPacket,
    shared: &mut SignaledGlobalStateInner,
    flags: &mut DeviceFlags,
    own_firmware: &str,
    uptime_secs: u64,
) -> (effects: Vec<Effect>)
    ensures
        effects_view(effects@) == packet_effects(packet@, own_firmware@),
        *final(shared) == shared_after(*old(shared), packet@.data),
        *final(flags) == flags_after(*old(flags), packet@.data, uptime_secs),
{
    let mut effects: Vec<Effect> = Vec::new();
    if let Some(tag) = packet.tag {
        effects.push(Effect::Publish(tag, packet.duplicate()));
    }
    match packet.data {
        TimerPacketInner::DeviceSettings { registered } => {
            shared.device_registered = Some(registered);
            if !registered {
                let request = TimerPacket {
                    tag: None,
                    data: TimerPacketInner::Add { firmware_name: own_firmware.to_owned() },
                };
                proof {
                    lemma_packet_doc_canonical(request@);
                }
                match encode_packet(&request) {
                    Some(text) => {
                        effects.push(Effect::Enqueue(Frame::Text(text)));
                    },
                    None => {},
                }
            }
        },
        TimerPacketInner::ApiError(error) => {
            effects.push(Effect::Log(LogEvent::ApiError(error)));
        },
        TimerPacketInner::EpochTime { current_epoch } => {
            flags.set_epoch(current_epoch, uptime_secs);
        },
        TimerPacketInner::StartUpdate { target_version, image_size, checksum, target_firmware_name } => {
            match OtaApplier::announced(own_firmware, &target_firmware_name, image_size, checksum) {
                Some(begin) => {
                    effects.push(Effect::BeginUpdate(begin));
                },
                None => {},
            }
        },
        _ => {},
    }
    effects
}

/// What a text frame calls for: a text that is no packet is logged and
/// dropped, and changes nothing.
pub open spec fn text_effects(text: Seq<char>, own_firmware: Seq<char>) -> Seq<EffectView> {
    match decoded(text) {
        Some(packet) => packet_effects(packet, own_firmware),
        None => seq![EffectView::Log(LogEventView::UndecodableText)],
    }
}

/// Applies a text frame: decodes it and applies the packet.
pub fn handle_text(
    text: &str,
    shared: &mut SignaledGlobalStateInner,
    flags: &mut DeviceFlags,
    own_firmware: &str,
    uptime_secs: u64,
) -> (effects: Vec<Effect>)
    ensures
        effects_view(effects@) == text_effects(text@, own_firmware@),
        match decoded(text@) {
            Some(packet) => *final(shared) == shared_after(*old(shared), packet.data) && *final(flags) == flags_after(*old(flags), packet.data, uptime_secs),
            None => *final(shared) == *old(shared) && *final(flags) == *old(flags),
        },
{
    match decode_packet(text) {
        Some(packet) => handle_packet(packet, shared, flags, own_firmware, uptime_secs),
        None => {
            let mut effects: Vec<Effect> = Vec::new();
            effects.push(Effect::Log(LogEvent::UndecodableText));
            effects
        },
    }
}

/// What a frame calls for, where it does not end the session. A chunk is
/// written only during an update; a probe is answered with an empty pong
/// through the outbound queue; a pong calls for nothing.
pub open spec fn frame_effects(
    frame: FrameView,
    update_mode: bool,
    applier: OtaApplier,
    own_firmware: Seq<char>,
) -> Seq<EffectView> {
    match frame {
        FrameView::Text(text) => text_effects(text, own_firmware),
        FrameView::Binary(data) => if update_mode && !applier.failed {
            seq![EffectView::WriteChunk(data)]
        } else {
            Seq::empty()
        },
        FrameView::Ping(_) => seq![EffectView::Enqueue(FrameView::Pong(Seq::empty()))],
        _ => Seq::empty(),
    }
}

/// Applies a frame that arrived on the open session. A close frame ends the
/// session and changes nothing else; every other frame is applied and the
/// session goes on.
pub fn handle_frame(
    frame: Frame,
    shared: &mut SignaledGlobalStateInner,
    flags: &mut DeviceFlags,
    applier: &OtaApplier,
    own_firmware: &str,
    uptime_secs: u64,
) -> (outcome: Result<Vec<Effect>, SessionFault>)
    ensures
        match outcome {
            Ok(effects) => !(frame@ is Close) && effects_view(effects@) == frame_effects(
                frame@,
                old(flags).ota,
                *applier,
                own_firmware@,
            ),
            Err(fault) => frame@ is Close && fault == SessionFault::ClosedByPeer,
        },
        match frame@ {
            FrameView::Text(text) => match decoded(text) {
                Some(packet) => *final(shared) == shared_after(*old(shared), packet.data)
                    && *final(flags) == flags_after(*old(flags), packet.data, uptime_secs),
                None => *final(shared) == *old(shared) && *final(flags) == *old(flags),
            },
            _ => *final(shared) == *old(shared) && *final(flags) == *old(flags),
        },
{
    match frame {
        Frame::Text(text) => Ok(
            handle_text(text.as_str(), shared, flags, own_firmware, uptime_secs),
        ),
        Frame::Binary(data) => {
            let mut effects: Vec<Effect> = Vec::new();
            if applier.wants_chunk(flags.ota) {
                effects.push(Effect::WriteChunk(data));
            } else {
            }
            Ok(effects)
        },
        Frame::Close(_, _) => Err(SessionFault::ClosedByPeer),
        Frame::Ping(_) => {
            let mut effects: Vec<Effect> = Vec::new();
            let empty: Vec<u8> = Vec::new();
            effects.push(Effect::Enqueue(Frame::Pong(empty)));
            Ok(effects)
        },
        Frame::Pong(_) => {
            let effects: Vec<Effect> = Vec::new();
            Ok(effects)
        },
    }
}

/// What follows the declaration of an image to the flash: where the flash
/// took it, the pulses that mark the start and the request for the first
/// chunk.
pub open spec fn begun_effects() -> Seq<EffectView> {
    seq![
        EffectView::Pulse { count: START_PULSES, duration_ms: PULSE_MS },
        next_chunk_request(),
    ]
}

/// Takes note of how declaring an image to the flash went. Where the flash
/// took it the device enters update mode. Where it did not, nothing changes
/// and the session ends.
pub fn update_begun(
    applier: &mut OtaApplier,
    flags: &mut DeviceFlags,
    begin: FlashBegin,
    ok: bool,
) -> (outcome: Result<Vec<Effect>, SessionFault>)
    ensures
        match outcome {
            Ok(effects) => ok && effects_view(effects@) == begun_effects() && *final(applier)
                == OtaApplier::started(begin.image_size, begin.checksum) && *final(flags) == (
            DeviceFlags { ota: true, ..*old(flags) }),
            Err(fault) => !ok && fault == SessionFault::FlashRefused && *final(applier) == *old(applier) && *final(flags) == *old(flags),
        },
{
    if !applier.begun(begin, ok) {
        return Err(SessionFault::FlashRefused);
    }
    flags.ota = true;
    let mut effects: Vec<Effect> = Vec::new();
    effects.push(Effect::Pulse { count: START_PULSES, duration_ms: PULSE_MS });
    let empty: Vec<u8> = Vec::new();
    effects.push(Effect::Enqueue(Frame::Binary(empty)));
    Ok(effects)
}

/// The pulse that marks progress, where there is one.
pub open spec fn pulse_effects(pulse: bool) -> Seq<EffectView> {
    if pulse {
        seq![EffectView::Pulse { count: 1, duration_ms: PULSE_MS }]
    } else {
        Seq::empty()
    }
}

/// What follows a chunk.
pub open spec fn chunk_effects(step: ChunkStep) -> Seq<EffectView> {
    match step {
        ChunkStep::Ignored => Seq::empty(),
        ChunkStep::WriteFailed => seq![EffectView::Log(LogEventView::OtaWriteFailed)],
        ChunkStep::Continue { pulse } => pulse_effects(pulse) + seq![next_chunk_request()],
        ChunkStep::Complete { pulse } => pulse_effects(pulse) + seq![EffectView::VerifyImage],
    }
}

/// Takes note of how writing a chunk of `len` bytes went: an incomplete
/// image calls for the next chunk, a complete one for its check, and a
/// refused chunk ends the update without a restart.
pub fn chunk_written(applier: &mut OtaApplier, flags: &DeviceFlags, len: usize, ok: bool) -> (effects:
    Vec<Effect>)
    ensures
        flags.ota ==> *final(applier) == chunk_step(*old(applier), len, ok).0 && effects_view(
            effects@,
        ) == chunk_effects(chunk_step(*old(applier), len, ok).1),
        !flags.ota ==> *final(applier) == *old(applier) && effects_view(effects@) == Seq::<
            EffectView,
        >::empty(),
{
    let step = applier.chunk_written(flags.ota, len, ok);
    let mut effects: Vec<Effect> = Vec::new();
    match step {
        ChunkStep::Ignored => {},
        ChunkStep::WriteFailed => {
            effects.push(Effect::Log(LogEvent::OtaWriteFailed));
        },
        ChunkStep::Continue { pulse } => {
            if pulse {
                effects.push(Effect::Pulse { count: 1, duration_ms: PULSE_MS });
            }
            let empty: Vec<u8> = Vec::new();
            effects.push(Effect::Enqueue(Frame::Binary(empty)));
        },
        ChunkStep::Complete { pulse } => {
            if pulse {
                effects.push(Effect::Pulse { count: 1, duration_ms: PULSE_MS });
            }
            effects.push(Effect::VerifyImage);
        },
    }
    effects
}

/// What follows the check of a complete image: a restart into a good
/// image; for a bad one the line in the log and, as after every chunk that
/// is not followed by a restart, the request for the next chunk.
pub open spec fn verify_effects(step: VerifyStep) -> Seq<EffectView> {
    match step {
        VerifyStep::Ignored => Seq::empty(),
        VerifyStep::Restart => seq![EffectView::Restart],
        VerifyStep::VerifyFailed => seq![
            EffectView::Log(LogEventView::OtaVerifyFailed),
            next_chunk_request(),
        ],
    }
}

/// Takes note of how the check of the complete image went: a good image
/// calls for a restart; a bad one is logged, the next chunk is asked for,
/// and the device stays on its firmware.
pub fn image_verified(applier: &mut OtaApplier, flags: &DeviceFlags, ok: bool) -> (effects: Vec<
    Effect,
>)
    ensures
        flags.ota ==> *final(applier) == verify_step(*old(applier), ok).0 && effects_view(
            effects@,
        ) == verify_effects(verify_step(*old(applier), ok).1),
        !flags.ota ==> *final(applier) == *old(applier) && effects_view(effects@) == Seq::<
            EffectView,
        >::empty(),
{
    let step = applier.verified(flags.ota, ok);
    let mut effects: Vec<Effect> = Vec::new();
    match step {
        VerifyStep::Ignored => {},
        VerifyStep::Restart => {
            effects.push(Effect::Restart);
        },
        VerifyStep::VerifyFailed => {
            effects.push(Effect::Log(LogEvent::OtaVerifyFailed));
            let empty: Vec<u8> = Vec::new();
            effects.push(Effect::Enqueue(Frame::Binary(empty)));
        },
    }
    effects
}

/// An image that is announced for another firmware changes nothing: there
/// is nothing to write, the device does not enter update mode, and the
/// shared state stays as it is.
pub proof fn lemma_foreign_image_is_passed_over(
    packet: TimerPacketView,
    own_firmware: Seq<char>,
    shared: SignaledGlobalStateInner,
    flags: DeviceFlags,
    uptime_secs: u64,
)
    requires
        packet.data matches TimerPacketInnerView::StartUpdate { target_firmware_name, .. }
            && target_firmware_name != own_firmware,
    ensures
        message_effects(packet.data, own_firmware) == Seq::<EffectView>::empty(),
        packet_effects(packet, own_firmware) == broadcast_of(packet),
        shared_after(shared, packet.data) == shared,
        flags_after(flags, packet.data, uptime_secs) == flags,
{
}

/// Every chunk that the flash takes is answered: by the request for the
/// next chunk where the image is not complete, and by the check where it
/// is; the check in its turn ends in a restart or, for a bad image, in the
/// request for the next chunk.
pub proof fn lemma_chunk_is_answered(applier: OtaApplier, len: usize)
    requires
        !applier.failed,
    ensures
        ({
            let (after, step) = chunk_step(applier, len, true);
            &&& step is Continue || step is Complete
            &&& step is Continue ==> chunk_effects(step).last() == next_chunk_request()
            &&& step is Complete ==> {
                &&& chunk_effects(step).last() == EffectView::VerifyImage
                &&& verify_effects(verify_step(after, true).1) == seq![EffectView::Restart]
                &&& verify_effects(verify_step(after, false).1).last() == next_chunk_request()
            }
        }),
{
}

} // verus!
