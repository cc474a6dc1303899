//! Frames of the message stream, and the calls into `ws_framer` that turn
//! frames into bytes and bytes into frames.

use vstd::prelude::*;
use vstd::utf8::encode_utf8;
use ws_framer::{WsFrame, WsRxError, WsRxFramer, WsTxFramer};

verus! {

/// One frame of the stream, with its payload.
#[derive(Debug, Clone, PartialEq, Eq)]
pub enum Frame {
    /// A text message: one packet as JSON.
    Text(String),
    /// A chunk of a firmware image; an empty one asks for the next chunk.
    Binary(Vec<u8>),
    /// The peer closes the stream, with a status code and a reason.
    Close(u16, String),
    /// A probe that the receiver answers with a pong.
    Ping(Vec<u8>),
    /// The answer to a probe.
    Pong(Vec<u8>),
}

pub enum FrameView {
    Text(Seq<char>),
    Binary(Seq<u8>),
    Close(u16, Seq<char>),
    Ping(Seq<u8>),
    Pong(Seq<u8>),
}

impl View for Frame {
    type V = FrameView;

    open spec fn view(&self) -> FrameView {
        match self {
            Frame::Text(text) => FrameView::Text(text@),
            Frame::Binary(data) => FrameView::Binary(data@),
            Frame::Close(code, reason) => FrameView::Close(*code, reason@),
            Frame::Ping(data) => FrameView::Ping(data@),
            Frame::Pong(data) => FrameView::Pong(data@),
        }
    }
}

impl DeepView for Frame {
    type V = FrameView;

    open spec fn deep_view(&self) -> FrameView {
        self@
    }
}

/// Why received data was dropped.
#[derive(Debug, Clone, Copy, PartialEq, Eq)]
pub enum RxFault {
    /// A frame or a response head that does not fit the receive buffer.
    Oversized { len: u64 },
    /// A text that is not UTF-8.
    InvalidUtf8,
    /// Data that breaks the framing or the upgrade protocol.
    Protocol,
}

/// The number that names a frame's kind on the wire.
pub open spec fn opcode(frame: FrameView) -> int {
    match frame {
        FrameView::Text(_) => 1,
        FrameView::Binary(_) => 2,
        FrameView::Close(_, _) => 8,
        FrameView::Ping(_) => 9,
        FrameView::Pong(_) => 10,
    }
}

/// The payload bytes of a frame. A close frame carries its code in two
/// bytes, the more significant first, before the reason.
pub open spec fn payload(frame: FrameView) -> Seq<u8> {
    match frame {
        FrameView::Text(text) => encode_utf8(text),
        FrameView::Binary(data) => data,
        FrameView::Close(code, reason) => seq![(code / 0x100) as u8, (code % 0x100) as u8]
            + encode_utf8(reason),
        FrameView::Ping(data) => data,
        FrameView::Pong(data) => data,
    }
}

/// The number of payload bytes that a frame carries.
pub open spec fn payload_len(frame: FrameView) -> int {
    payload(frame).len() as int
}

/// A control frame carries at most 125 bytes of payload.
pub open spec fn sendable(frame: FrameView) -> bool {
    match frame {
        FrameView::Text(_) => true,
        FrameView::Binary(_) => true,
        _ => payload_len(frame) <= 125,
    }
}

/// What the second byte of a frame holds besides the length: the sign of a
/// masked payload.
pub open spec fn mask_bit(mask: bool) -> int {
    if mask {
        0x80
    } else {
        0
    }
}

/// The byte at `index` of a length written in eight bytes, the most
/// significant first.
pub open spec fn length_byte(n: int, index: int) -> u8 {
    if index == 0 {
        (n / 0x100_0000_0000_0000 % 0x100) as u8
    } else if index == 1 {
        (n / 0x1_0000_0000_0000 % 0x100) as u8
    } else if index == 2 {
        (n / 0x100_0000_0000 % 0x100) as u8
    } else if index == 3 {
        (n / 0x1_0000_0000 % 0x100) as u8
    } else if index == 4 {
        (n / 0x100_0000 % 0x100) as u8
    } else if index == 5 {
        (n / 0x1_0000 % 0x100) as u8
    } else if index == 6 {
        (n / 0x100 % 0x100) as u8
    } else {
        (n % 0x100) as u8
    }
}

/// The head of a frame up to the place of the masking key: the byte that
/// marks a final frame of the frame's kind, and the length of the payload,
/// in one byte up to 125, in two more bytes up to 65535, and in eight more
/// bytes above that.
pub open spec fn frame_head(frame: FrameView, mask: bool) -> Seq<u8> {
    let n = payload_len(frame);
    let first = (0x80 + opcode(frame)) as u8;
    if n <= 125 {
        seq![first, (mask_bit(mask) + n) as u8]
    } else if n <= 0xffff {
        seq![first, (mask_bit(mask) + 126) as u8, (n / 0x100) as u8, (n % 0x100) as u8]
    } else {
        seq![first, (mask_bit(mask) + 127) as u8] + Seq::new(8, |j: int| length_byte(n, j))
    }
}

/// A payload under a masking key of four bytes: each byte with the key's
/// byte at its place, taken round and round.
pub open spec fn masked(bytes: Seq<u8>, key: Seq<u8>) -> Seq<u8> {
    Seq::new(bytes.len(), |i: int| bytes[i] ^ key[i % 4])
}

/// The bytes of a frame on the wire: under a key the head, the key and the
/// masked payload; without one the head and the payload.
pub open spec fn wire_bytes(frame: FrameView, key: Option<Seq<u8>>) -> Seq<u8> {
    match key {
        Some(k) => frame_head(frame, true) + k + masked(payload(frame), k),
        None => frame_head(frame, false) + payload(frame),
    }
}

/// Whether bytes are a frame on the wire, as a sender with the given rule
/// of masking writes it: under some key of four bytes, or plain.
pub open spec fn carries(bytes: Seq<u8>, frame: FrameView, mask: bool) -> bool {
    if mask {
        exists|key: Seq<u8>| key.len() == 4 && bytes == #[trigger] wire_bytes(frame, Some(key))
    } else {
        bytes == wire_bytes(frame, None)
    }
}

/// The size of a frame on the wire: two bytes, the extended length where
/// the payload needs one, the masking key where there is one, and the
/// payload.
pub open spec fn wire_len(frame: FrameView, mask: bool) -> int {
    let n = payload_len(frame);
    let key = if mask {
        4int
    } else {
        0int
    };
    if n <= 125 {
        2 + key + n
    } else if n <= 0xffff {
        4 + key + n
    } else {
        10 + key + n
    }
}

/// A frame on the wire has the size of its parts, and begins with the byte
/// that marks a final frame of its kind.
pub proof fn lemma_carried_frame(bytes: Seq<u8>, frame: FrameView, mask: bool)
    requires
        carries(bytes, frame, mask),
    ensures
        bytes.len() == wire_len(frame, mask),
        bytes[0] == 0x80 + opcode(frame),
{
    if mask {
        let key = choose|key: Seq<u8>|
            key.len() == 4 && bytes == #[trigger] wire_bytes(frame, Some(key));
        assert(bytes[0] == frame_head(frame, true)[0]);
    } else {
        assert(bytes[0] == frame_head(frame, false)[0]);
    }
}

/// The receiver of `ws_framer`: it holds the bytes that were read and hands
/// out the frames that are complete. Nothing of its inside is known here.
#[verifier::external_type_specification]
#[verifier::external_body]
pub struct ExWsRxFramer<'a>(ws_framer::WsRxFramer<'a>);

/// Encodes a frame with `ws_framer::WsTxFramer::frame`, in a buffer of
/// `capacity` bytes that is made for the call; the bound on `capacity`
/// keeps that buffer small. A masked frame is written under a fresh random
/// key, so the contract states what holds for every key: there is a result
/// exactly where the frame can be sent and fits the buffer, and the result
/// is the frame on the wire under some key.
#[verifier::external_body]
fn frame_wire(frame: &Frame, mask: bool, capacity: usize) -> (wire: Option<Vec<u8>>)
    requires
        capacity <= 0x10000,
    ensures
        wire.is_some() == (sendable(frame@) && capacity >= wire_len(frame@, mask)),
        match wire {
            Some(bytes) => carries(bytes@, frame@, mask),
            None => true,
        },
{
    let mut buffer = vec![0u8; capacity];
    let mut tx = WsTxFramer::new(mask, &mut buffer);
    let wire = match frame {
        Frame::Text(text) => tx.frame(WsFrame::Text(text)),
        Frame::Binary(data) => tx.frame(WsFrame::Binary(data)),
        Frame::Close(code, reason) => tx.frame(WsFrame::Close(*code, reason)),
        Frame::Ping(data) => tx.frame(WsFrame::Ping(data)),
        Frame::Pong(data) => tx.frame(WsFrame::Pong(data)),
    };
    wire.map(|bytes| bytes.to_vec())
}

/// The head of an upgrade request: the request line and the headers up to
/// the place of the key.
pub open spec fn upgrade_head(host: Seq<char>, path: Seq<char>) -> Seq<u8> {
    encode_utf8(
        "GET "@ + path
            + " HTTP/1.1\r\nConnection: Upgrade\r\nUpgrade: websocket\r\nSec-WebSocket-Version: 13\r\nHost: "@
            + host + "\r\nSec-WebSocket-Key: "@,
    )
}

/// The end of an upgrade request, behind the key: the end of the key's line
/// and the empty line.
pub open spec fn upgrade_tail() -> Seq<u8> {
    encode_utf8("\r\n\r\n"@)
}

/// The number of bytes of the key of an upgrade request.
pub const UPGRADE_KEY_LEN: usize = 24;

/// Builds the upgrade request with
/// `ws_framer::WsTxFramer::http_upgrade_request`, without extra headers, in
/// a buffer of `capacity` bytes that is made for the call; the bound on
/// `capacity` keeps that buffer small. The request holds a fresh random key,
/// so the contract states what holds for every key: the request is the head
/// for this host and path, 24 bytes of key, and the tail; there is no
/// request exactly where that does not fit the buffer. The rule of masking
/// goes to the framer and does not show in the request.
#[verifier::external_body]
pub(crate) fn upgrade_wire(host: &str, path: &str, mask: bool, capacity: usize) -> (wire: Option<
    Vec<u8>,
>)
    requires
        capacity <= 0x10000,
    ensures
        wire.is_some() == (capacity >= upgrade_head(host@, path@).len() + UPGRADE_KEY_LEN
            + upgrade_tail().len()),
        match wire {
            Some(bytes) => {
                let head = upgrade_head(host@, path@);
                &&& bytes@.len() == head.len() + UPGRADE_KEY_LEN + upgrade_tail().len()
                &&& bytes@.take(head.len() as int) == head
                &&& bytes@.skip(head.len() + UPGRADE_KEY_LEN) == upgrade_tail()
            },
            None => true,
        },
{
    let mut buffer = vec![0u8; capacity];
    let mut tx = WsTxFramer::new(mask, &mut buffer);
    tx.http_upgrade_request(host, path, &[]).map(|bytes| bytes.to_vec())
}

/// The view of what the receiver hands out: a frame, or the fault for
/// which data was dropped.
pub open spec fn item_view(item: Result<Frame, RxFault>) -> Result<FrameView, RxFault> {
    match item {
        Ok(frame) => Ok(frame@),
        Err(fault) => Err(fault),
    }
}

/// The row of items that `ws_framer::WsRxFramer::next_frame` hands out from
/// a receiver, one call after another, until it has nothing complete left.
pub uninterp spec fn rx_items(rx: WsRxFramer<'_>) -> Seq<Result<FrameView, RxFault>>;

/// The row of items that a receiver hands out once
/// `ws_framer::WsRxFramer::advance` has told it of `count` more bytes in its
/// buffer.
pub uninterp spec fn rx_items_after(rx: WsRxFramer<'_>, count: usize) -> Seq<
    Result<FrameView, RxFault>,
>;

/// What `ws_framer::WsRxFramer::http_response` makes of the bytes that a
/// receiver holds: the status code of the response, a fault, or `None`
/// until the head of the response is complete.
pub uninterp spec fn rx_status(rx: WsRxFramer<'_>) -> Option<Result<u16, RxFault>>;

/// What a receiver makes of the response once
/// `ws_framer::WsRxFramer::advance` has told it of `count` more bytes in its
/// buffer.
pub uninterp spec fn rx_status_after(rx: WsRxFramer<'_>, count: usize) -> Option<
    Result<u16, RxFault>,
>;

/// Tells the receiver, with `ws_framer::WsRxFramer::advance`, that `count`
/// bytes were read into its buffer. The contract only names what the
/// receiver hands out from then on.
#[verifier::external_body]
pub(crate) fn rx_advance(rx: &mut WsRxFramer<'_>, count: usize)
    ensures
        rx_items(*final(rx)) == rx_items_after(*old(rx), count),
        rx_status(*final(rx)) == rx_status_after(*old(rx), count),
{
    rx.advance(count)
}

/// Takes the next frame with `ws_framer::WsRxFramer::next_frame` and copies
/// it out of the receiver's buffer. The item that comes out is the first of
/// the receiver's row, and the rest of the row is what the receiver hands
/// out afterwards; nothing comes out exactly where the row is empty, and
/// then it stays empty.
#[verifier::external_body]
pub(crate) fn rx_next_frame(rx: &mut WsRxFramer<'_>) -> (next: Option<Result<Frame, RxFault>>)
    ensures
        match next {
            Some(item) => rx_items(*old(rx)).len() > 0 && item_view(item) == rx_items(*old(rx))[0]
                && rx_items(*final(rx)) == rx_items(*old(rx)).drop_first(),
            None => rx_items(*old(rx)).len() == 0 && rx_items(*final(rx)) == rx_items(*old(rx)),
        },
{
    rx.next_frame().map(
        |item|
            match item {
                Ok(WsFrame::Text(text)) => Ok(Frame::Text(text.to_owned())),
                Ok(WsFrame::Binary(data)) => Ok(Frame::Binary(data.to_vec())),
                Ok(WsFrame::Close(code, why)) => Ok(Frame::Close(code, why.to_owned())),
                Ok(WsFrame::Ping(data)) => Ok(Frame::Ping(data.to_vec())),
                Ok(WsFrame::Pong(data)) => Ok(Frame::Pong(data.to_vec())),
                Err(WsRxError::Oversized { len }) => Err(RxFault::Oversized { len }),
                Err(WsRxError::InvalidUtf8) => Err(RxFault::InvalidUtf8),
                Err(WsRxError::Protocol) => Err(RxFault::Protocol),
            },
    )
}

/// Asks the receiver, with `ws_framer::WsRxFramer::http_response`, for the
/// status code of the upgrade response. `None` until the whole head of the
/// response has arrived. The contract only names the outcome.
#[verifier::external_body]
pub(crate) fn rx_http_status(rx: &mut WsRxFramer<'_>) -> (status: Option<Result<u16, RxFault>>)
    ensures
        status == rx_status(*old(rx)),
{
    rx.http_response().map(
        |item|
            match item {
                Ok(response) => Ok(response.status_code),
                Err(WsRxError::Oversized { len }) => Err(RxFault::Oversized { len }),
                Err(WsRxError::InvalidUtf8) => Err(RxFault::InvalidUtf8),
                Err(WsRxError::Protocol) => Err(RxFault::Protocol),
            },
    )
}

/// The size of the buffer that a frame is encoded in.
pub const TX_CAPACITY: usize = 8192;

/// The terminal is the client of the stream, and a client masks its frames.
pub const CLIENT_MASK: bool = true;

/// Encodes a frame for the wire, masked as a client's frames are. `None`
/// exactly where the frame cannot be sent: a control frame with more than
/// 125 bytes of payload, or a frame that does not fit the transmit buffer.
/// The bytes are the frame on the wire under some masking key.
pub fn encode_frame(frame: &Frame) -> (wire: Option<Vec<u8>>)
    ensures
        wire.is_some() == (sendable(frame@) && TX_CAPACITY >= wire_len(frame@, CLIENT_MASK)),
        match wire {
            Some(bytes) => carries(bytes@, frame@, CLIENT_MASK) && bytes@.len() == wire_len(
                frame@,
                CLIENT_MASK,
            ) && bytes@[0] == 0x80 + opcode(frame@),
            None => true,
        },
{
    let wire = frame_wire(frame, CLIENT_MASK, TX_CAPACITY);
    proof {
        if wire is Some {
            lemma_carried_frame(wire->Some_0@, frame@, CLIENT_MASK);
        }
    }
    wire
}

} // verus!
