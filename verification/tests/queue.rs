use staffat_firmware::frame::{encode_frame, Frame};
use staffat_firmware::queue::{
    clear_frame_channel, send_packet, OutboundQueue, SendOutcome, FRAME_CHANNEL_CAPACITY,
};
use staffat_firmware::structs::{Reading, TimerPacket, TimerPacketInner};

fn text(n: usize) -> Frame {
    Frame::Text(format!("frame {n}"))
}

#[test]
fn frames_leave_in_the_order_in_which_they_came() {
    let mut queue = OutboundQueue::new();
    assert!(queue.is_empty());
    for n in 0..5 {
        assert_eq!(queue.try_send(text(n)), Ok(()));
    }
    assert_eq!(queue.len(), 5);
    for n in 0..5 {
        assert_eq!(queue.try_receive(), Some(text(n)));
    }
    assert_eq!(queue.try_receive(), None);
}

#[test]
fn the_queue_takes_ten_frames_and_hands_the_eleventh_back() {
    let mut queue = OutboundQueue::new();
    assert_eq!(FRAME_CHANNEL_CAPACITY, 10);
    for n in 0..10 {
        assert!(!queue.is_full());
        assert_eq!(queue.try_send(text(n)), Ok(()));
    }
    assert!(queue.is_full());
    assert_eq!(queue.try_send(text(10)), Err(text(10)));
    assert_eq!(queue.len(), 10);
    assert_eq!(queue.try_receive(), Some(text(0)));
    assert_eq!(queue.try_send(text(10)), Ok(()));
}

#[test]
fn clearing_drops_every_frame() {
    let mut queue = OutboundQueue::new();
    for n in 0..3 {
        assert_eq!(queue.try_send(text(n)), Ok(()));
    }
    clear_frame_channel(&mut queue);
    assert!(queue.is_empty());
    assert_eq!(queue.try_receive(), None);
    clear_frame_channel(&mut queue);
    assert_eq!(queue.len(), 0);
}

#[test]
fn a_packet_is_queued_as_its_json_text() {
    let mut queue = OutboundQueue::new();
    let packet = TimerPacket { tag: Some(2), data: TimerPacketInner::AttendanceMarked };
    assert_eq!(send_packet(&mut queue, &packet), SendOutcome::Queued);
    assert_eq!(
        queue.try_receive(),
        Some(Frame::Text(String::from("{\"tag\":2,\"data\":\"attendance_marked\"}")))
    );
}

#[test]
fn a_full_queue_hands_the_encoded_packet_back() {
    let mut queue = OutboundQueue::new();
    for n in 0..10 {
        assert_eq!(queue.try_send(text(n)), Ok(()));
    }
    let packet = TimerPacket { tag: None, data: TimerPacketInner::AttendanceMarked };
    assert_eq!(
        send_packet(&mut queue, &packet),
        SendOutcome::Full(Frame::Text(String::from("{\"data\":\"attendance_marked\"}")))
    );
    assert_eq!(queue.len(), 10);
}

#[test]
fn a_packet_that_cannot_be_encoded_is_not_queued() {
    let mut queue = OutboundQueue::new();
    let packet = TimerPacket {
        tag: None,
        data: TimerPacketInner::Battery {
            level: Some(Reading::Decimal(String::from("?"))),
            voltage: None,
        },
    };
    assert_eq!(send_packet(&mut queue, &packet), SendOutcome::NotEncodable);
    assert!(queue.is_empty());
}

#[test]
fn a_frame_on_the_wire_is_masked_and_has_its_size() {
    let short = encode_frame(&Frame::Text(String::from("hi"))).expect("fits");
    assert_eq!(short.len(), 6 + 2);
    assert_eq!(short[0], 0x81);
    assert_eq!(short[1], 0x80 | 2);
    let key = [short[2], short[3], short[4], short[5]];
    assert_eq!([short[6] ^ key[0], short[7] ^ key[1]], [b'h', b'i']);
    let medium = encode_frame(&Frame::Binary(vec![7; 126])).expect("fits");
    assert_eq!(medium.len(), 8 + 126);
    assert_eq!(medium[0], 0x82);
    let empty = encode_frame(&Frame::Binary(Vec::new())).expect("fits");
    assert_eq!(empty.len(), 6);
    let ping = encode_frame(&Frame::Ping(Vec::new())).expect("fits");
    assert_eq!(ping[0], 0x89);
    let pong = encode_frame(&Frame::Pong(vec![1, 2, 3])).expect("fits");
    assert_eq!((pong[0], pong.len()), (0x8a, 9));
    let close = encode_frame(&Frame::Close(1000, String::from("bye"))).expect("fits");
    assert_eq!((close[0], close.len()), (0x88, 6 + 2 + 3));
}

#[test]
fn a_frame_that_cannot_be_sent_has_no_bytes() {
    assert_eq!(encode_frame(&Frame::Ping(vec![0; 126])), None);
    assert!(encode_frame(&Frame::Ping(vec![0; 125])).is_some());
    assert_eq!(encode_frame(&Frame::Close(1000, "x".repeat(124))), None);
    assert!(encode_frame(&Frame::Close(1000, "x".repeat(123))).is_some());
    assert_eq!(encode_frame(&Frame::Binary(vec![0; 8192 - 7])), None);
    assert_eq!(encode_frame(&Frame::Binary(vec![0; 8192 - 8])).map(|wire| wire.len()), Some(8192));
    assert_eq!(encode_frame(&Frame::Text("\u{eb}".repeat(4092))).map(|wire| wire.len()), Some(8192));
    assert_eq!(encode_frame(&Frame::Text("\u{eb}".repeat(4093))), None);
}

fn unmasked(wire: &[u8], head: usize) -> Vec<u8> {
    let key = &wire[head..head + 4];
    wire[head + 4..].iter().enumerate().map(|(i, byte)| byte ^ key[i % 4]).collect()
}

#[test]
fn the_bytes_on_the_wire_carry_the_frame_under_their_key() {
    let text = encode_frame(&Frame::Text(String::from("z\u{eb}"))).expect("fits");
    assert_eq!(&text[..2], &[0x81, 0x80 + 3]);
    assert_eq!(unmasked(&text, 2), "z\u{eb}".as_bytes());
    let data: Vec<u8> = (0..300).map(|n| (n % 251) as u8).collect();
    let binary = encode_frame(&Frame::Binary(data.clone())).expect("fits");
    assert_eq!(&binary[..4], &[0x82, 0x80 + 126, 1, 44]);
    assert_eq!(unmasked(&binary, 4), data);
    let close = encode_frame(&Frame::Close(1000, String::from("bye"))).expect("fits");
    assert_eq!(&close[..2], &[0x88, 0x80 + 5]);
    assert_eq!(unmasked(&close, 2), vec![0x03, 0xe8, b'b', b'y', b'e']);
    let ping = encode_frame(&Frame::Ping(vec![9, 8])).expect("fits");
    assert_eq!(&ping[..2], &[0x89, 0x80 + 2]);
    assert_eq!(unmasked(&ping, 2), vec![9, 8]);
    let pong = encode_frame(&Frame::Pong(Vec::new())).expect("fits");
    assert_eq!(&pong[..2], &[0x8a, 0x80]);
    assert_eq!(pong.len(), 6);
}
