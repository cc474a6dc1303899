use staffat_firmware::codec::{
    decode_packet, encode_checked, encode_packet, message_from_json, packet_from_json,
    packet_to_json, reading_is_canonical, reads_back,
};
use staffat_firmware::json::{parse_json, print_json, Json};
use staffat_firmware::structs::{
    ApiError, CardInfoResponsePacket, Reading, TimerPacket, TimerPacketInner,
};

fn text_of(packet: &TimerPacket) -> String {
    encode_packet(packet).expect("the packet can be written out")
}

fn round_trip(packet: TimerPacket) {
    let text = text_of(&packet);
    assert_eq!(decode_packet(&text), Some(packet));
}

fn untagged(data: TimerPacketInner) -> TimerPacket {
    TimerPacket { tag: None, data }
}

#[test]
fn card_request_is_written_with_its_tag_first() {
    let packet = TimerPacket {
        tag: Some(7),
        data: TimerPacketInner::CardInfoRequest {
            card_id: 3004425529,
            attendance_device: Some(true),
        },
    };
    assert_eq!(
        text_of(&packet),
        "{\"tag\":7,\"data\":{\"card_info_request\":{\"card_id\":3004425529,\"attendance_device\":true}}}"
    );
}

#[test]
fn absent_attendance_flag_is_left_out() {
    let packet = untagged(TimerPacketInner::CardInfoRequest { card_id: 5, attendance_device: None });
    assert_eq!(text_of(&packet), "{\"data\":{\"card_info_request\":{\"card_id\":5}}}");
}

#[test]
fn each_message_has_its_own_layout() {
    assert_eq!(
        text_of(&untagged(TimerPacketInner::StartUpdate {
            target_version: String::from("v2"),
            image_size: 10,
            checksum: 20,
            target_firmware_name: String::from("STAFF_ATTENDANCE"),
        })),
        "{\"data\":{\"start_update\":{\"target_version\":\"v2\",\"image_size\":10,\"checksum\":20,\"target_firmware_name\":\"STAFF_ATTENDANCE\"}}}"
    );
    assert_eq!(
        text_of(&untagged(TimerPacketInner::ApiError(ApiError {
            message: String::from("no"),
            should_reset_time: false,
        }))),
        "{\"data\":{\"api_error\":{\"message\":\"no\",\"should_reset_time\":false}}}"
    );
    assert_eq!(
        text_of(&untagged(TimerPacketInner::CardInfoResponse(CardInfoResponsePacket {
            card_id: 1,
            display_name: String::from("Ann"),
            country_code: String::from("PL"),
            eligible: true,
        }))),
        "{\"data\":{\"card_info_response\":{\"card_id\":1,\"display_name\":\"Ann\",\"country_code\":\"PL\",\"eligible\":true}}}"
    );
    assert_eq!(
        text_of(&untagged(TimerPacketInner::AttendanceMarked)),
        "{\"data\":\"attendance_marked\"}"
    );
    assert_eq!(
        text_of(&untagged(TimerPacketInner::DeviceSettings { registered: true })),
        "{\"data\":{\"device_settings\":{\"registered\":true}}}"
    );
    assert_eq!(
        text_of(&untagged(TimerPacketInner::Logs {
            lines: vec![String::from("a"), String::from("b")],
        })),
        "{\"data\":{\"logs\":{\"lines\":[\"a\",\"b\"]}}}"
    );
    assert_eq!(
        text_of(&untagged(TimerPacketInner::Battery {
            level: Some(Reading::Decimal(String::from("87.5"))),
            voltage: None,
        })),
        "{\"data\":{\"battery\":{\"level\":87.5,\"voltage\":null}}}"
    );
    assert_eq!(
        text_of(&untagged(TimerPacketInner::Add { firmware_name: String::from("F") })),
        "{\"data\":{\"add\":{\"firmware_name\":\"F\"}}}"
    );
    assert_eq!(
        text_of(&untagged(TimerPacketInner::EpochTime { current_epoch: 1700000000 })),
        "{\"data\":{\"epoch_time\":{\"current_epoch\":1700000000}}}"
    );
}

#[test]
fn every_message_survives_encoding_and_decoding() {
    round_trip(untagged(TimerPacketInner::StartUpdate {
        target_version: String::from("v1.2"),
        image_size: u32::MAX,
        checksum: 0xdead_beef,
        target_firmware_name: String::from("STAFF_ATTENDANCE"),
    }));
    round_trip(TimerPacket {
        tag: Some(u64::MAX),
        data: TimerPacketInner::ApiError(ApiError {
            message: String::from("no \"such\" card\n\u{1}"),
            should_reset_time: true,
        }),
    });
    round_trip(TimerPacket {
        tag: Some(0),
        data: TimerPacketInner::CardInfoRequest { card_id: 1, attendance_device: None },
    });
    round_trip(TimerPacket {
        tag: Some(9),
        data: TimerPacketInner::CardInfoResponse(CardInfoResponsePacket {
            card_id: 77,
            display_name: String::from("Zo\u{eb} \u{1f600}"),
            country_code: String::from("PL"),
            eligible: false,
        }),
    });
    round_trip(TimerPacket { tag: Some(1), data: TimerPacketInner::AttendanceMarked });
    round_trip(untagged(TimerPacketInner::DeviceSettings { registered: false }));
    round_trip(untagged(TimerPacketInner::Logs {
        lines: vec![String::from("a"), String::new(), String::from("c")],
    }));
    round_trip(untagged(TimerPacketInner::Logs { lines: Vec::new() }));
    round_trip(untagged(TimerPacketInner::Battery {
        level: Some(Reading::UInt(87)),
        voltage: Some(Reading::Decimal(String::from("3.9"))),
    }));
    round_trip(untagged(TimerPacketInner::Battery {
        level: Some(Reading::NegInt(-3)),
        voltage: None,
    }));
    round_trip(untagged(TimerPacketInner::Add { firmware_name: String::from("STAFF_ATTENDANCE") }));
    round_trip(untagged(TimerPacketInner::EpochTime { current_epoch: 1_700_000_000 }));
}

#[test]
fn the_document_of_a_packet_reads_back_as_the_packet() {
    let packet = TimerPacket {
        tag: Some(3),
        data: TimerPacketInner::CardInfoRequest { card_id: 8, attendance_device: Some(false) },
    };
    let json = packet_to_json(&packet);
    assert_eq!(
        json,
        Json::Object(vec![
            (String::from("tag"), Json::UInt(3)),
            (
                String::from("data"),
                Json::Object(vec![(
                    String::from("card_info_request"),
                    Json::Object(vec![
                        (String::from("card_id"), Json::UInt(8)),
                        (String::from("attendance_device"), Json::Bool(false)),
                    ]),
                )]),
            ),
        ])
    );
    assert_eq!(packet_from_json(&json), Some(packet));
}

#[test]
fn a_null_tag_and_a_missing_tag_are_no_tag() {
    let expected = Some(untagged(TimerPacketInner::DeviceSettings { registered: true }));
    assert_eq!(
        decode_packet("{\"tag\":null,\"data\":{\"device_settings\":{\"registered\":true}}}"),
        expected
    );
    assert_eq!(decode_packet("{\"data\":{\"device_settings\":{\"registered\":true}}}"), expected);
}

#[test]
fn members_outside_the_schema_are_passed_over() {
    assert_eq!(
        decode_packet(
            "{\"extra\":[1,2.5,{}],\"data\":{\"epoch_time\":{\"current_epoch\":12,\"zone\":\"utc\"}},\"tag\":4}"
        ),
        Some(TimerPacket { tag: Some(4), data: TimerPacketInner::EpochTime { current_epoch: 12 } })
    );
}

#[test]
fn the_message_without_fields_is_read_in_both_forms() {
    let expected = Some(untagged(TimerPacketInner::AttendanceMarked));
    assert_eq!(decode_packet("{\"data\":\"attendance_marked\"}"), expected);
    assert_eq!(decode_packet("{\"data\":{\"attendance_marked\":null}}"), expected);
    assert_eq!(decode_packet("{\"data\":{\"attendance_marked\":{}}}"), None);
}

#[test]
fn text_outside_the_schema_does_not_decode() {
    assert_eq!(decode_packet(""), None);
    assert_eq!(decode_packet("not json"), None);
    assert_eq!(decode_packet("[]"), None);
    assert_eq!(decode_packet("{}"), None);
    assert_eq!(decode_packet("{\"tag\":1}"), None);
    assert_eq!(decode_packet("{\"data\":{\"reboot\":{}}}"), None);
    assert_eq!(decode_packet("{\"data\":\"logs\"}"), None);
    assert_eq!(decode_packet("{\"data\":{}}"), None);
    assert_eq!(
        decode_packet("{\"data\":{\"add\":{\"firmware_name\":\"a\"},\"logs\":{\"lines\":[]}}}"),
        None
    );
    assert_eq!(decode_packet("{\"tag\":-1,\"data\":\"attendance_marked\"}"), None);
    assert_eq!(decode_packet("{\"tag\":\"7\",\"data\":\"attendance_marked\"}"), None);
    assert_eq!(decode_packet("{\"tag\":1.5,\"data\":\"attendance_marked\"}"), None);
    assert_eq!(decode_packet("{\"data\":{\"device_settings\":{}}}"), None);
    assert_eq!(decode_packet("{\"data\":{\"device_settings\":{\"registered\":1}}}"), None);
    assert_eq!(decode_packet("{\"data\":{\"device_settings\":[true]}}"), None);
    assert_eq!(decode_packet("{\"data\":{\"logs\":{\"lines\":[\"a\",1]}}}"), None);
    assert_eq!(
        decode_packet(
            "{\"data\":{\"start_update\":{\"target_version\":\"v\",\"image_size\":4294967296,\"checksum\":1,\"target_firmware_name\":\"f\"}}}"
        ),
        None
    );
}

#[test]
fn a_reading_that_is_no_number_cannot_be_written_out() {
    let packet = untagged(TimerPacketInner::Battery {
        level: Some(Reading::Decimal(String::from("full"))),
        voltage: None,
    });
    assert_eq!(encode_packet(&packet), None);
    let padded = untagged(TimerPacketInner::Battery {
        level: None,
        voltage: Some(Reading::Decimal(String::from("3.70"))),
    });
    assert_eq!(encode_packet(&padded), None);
    let positive = untagged(TimerPacketInner::Battery {
        level: Some(Reading::NegInt(4)),
        voltage: None,
    });
    assert_eq!(encode_packet(&positive), None);
}

#[test]
fn readings_are_checked_against_the_parser() {
    assert!(reading_is_canonical(&None));
    assert!(reading_is_canonical(&Some(Reading::UInt(0))));
    assert!(reading_is_canonical(&Some(Reading::NegInt(-1))));
    assert!(!reading_is_canonical(&Some(Reading::NegInt(0))));
    assert!(reading_is_canonical(&Some(Reading::Decimal(String::from("3.7")))));
    assert!(!reading_is_canonical(&Some(Reading::Decimal(String::from("37")))));
    assert!(!reading_is_canonical(&Some(Reading::Decimal(String::from("")))));
}

#[test]
fn a_reading_is_taken_from_the_text_of_a_number() {
    assert_eq!(Reading::from_text("87"), Some(Reading::UInt(87)));
    assert_eq!(Reading::from_text("-4"), Some(Reading::NegInt(-4)));
    assert_eq!(Reading::from_text("3.9"), Some(Reading::Decimal(String::from("3.9"))));
    assert_eq!(Reading::from_text("3.90"), None);
    assert_eq!(Reading::from_text("\"3.9\""), None);
    assert_eq!(Reading::from_text("null"), None);
    assert_eq!(Reading::from_text("volts"), None);
}

#[test]
fn json_text_becomes_a_tree_and_a_tree_becomes_text() {
    let json = parse_json(" {\"b\": [1, -2, 2.5, \"x\", null, true], \"a\": {}} ");
    assert_eq!(
        json,
        Some(Json::Object(vec![
            (
                String::from("b"),
                Json::Array(vec![
                    Json::UInt(1),
                    Json::NegInt(-2),
                    Json::Decimal(String::from("2.5")),
                    Json::Str(String::from("x")),
                    Json::Null,
                    Json::Bool(true),
                ]),
            ),
            (String::from("a"), Json::Object(Vec::new())),
        ]))
    );
    assert_eq!(
        print_json(&json.expect("parsed")),
        "{\"b\":[1,-2,2.5,\"x\",null,true],\"a\":{}}"
    );
    assert_eq!(parse_json("{\"a\":1,}"), None);
    assert_eq!(parse_json("18446744073709551615"), Some(Json::UInt(u64::MAX)));
    assert_eq!(
        parse_json("18446744073709551616").map(|json| matches!(json, Json::Decimal(_))),
        Some(true)
    );
}

#[test]
fn a_message_is_read_from_its_own_document() {
    assert_eq!(
        message_from_json(&Json::Str(String::from("attendance_marked"))),
        Some(TimerPacketInner::AttendanceMarked)
    );
    assert_eq!(message_from_json(&Json::Str(String::from("add"))), None);
    assert_eq!(message_from_json(&Json::Null), None);
}

#[test]
fn the_checked_encoder_hands_out_text_that_decodes_to_the_packet() {
    let packet = TimerPacket {
        tag: Some(11),
        data: TimerPacketInner::Logs { lines: vec![String::from("a\"b"), String::from("\u{eb}")] },
    };
    let text = encode_checked(&packet).expect("goes through text");
    assert_eq!(text, "{\"tag\":11,\"data\":{\"logs\":{\"lines\":[\"a\\\"b\",\"\u{eb}\"]}}}");
    assert!(reads_back(&text, &packet));
    assert_eq!(decode_packet(&text), Some(packet));
    let unwritable = untagged(TimerPacketInner::Battery {
        level: Some(Reading::Decimal(String::from("1e"))),
        voltage: None,
    });
    assert_eq!(encode_checked(&unwritable), None);
}

#[test]
fn a_text_reads_back_only_as_its_own_packet() {
    let packet = TimerPacket { tag: Some(1), data: TimerPacketInner::AttendanceMarked };
    assert!(reads_back("{\"tag\":1,\"data\":\"attendance_marked\"}", &packet));
    assert!(!reads_back("{\"tag\":2,\"data\":\"attendance_marked\"}", &packet));
    assert!(!reads_back("{\"data\":\"attendance_marked\"}", &packet));
    assert!(!reads_back("{\"tag\":1,\"data\":{\"add\":{\"firmware_name\":\"x\"}}}", &packet));
    assert!(!reads_back("nothing", &packet));
}

#[test]
fn packets_are_the_same_only_with_the_same_contents() {
    let logs = |lines: Vec<&str>| TimerPacketInner::Logs {
        lines: lines.into_iter().map(String::from).collect(),
    };
    assert!(logs(vec!["a", "b"]).same(&logs(vec!["a", "b"])));
    assert!(!logs(vec!["a", "b"]).same(&logs(vec!["b", "a"])));
    assert!(!logs(vec!["a"]).same(&logs(vec!["a", "b"])));
    assert!(!logs(vec![]).same(&TimerPacketInner::AttendanceMarked));
    let card = |card_id: u64, flag: Option<bool>| TimerPacketInner::CardInfoRequest {
        card_id,
        attendance_device: flag,
    };
    assert!(card(1, None).same(&card(1, None)));
    assert!(!card(1, None).same(&card(1, Some(false))));
    assert!(!card(1, Some(true)).same(&card(2, Some(true))));
    let battery = |level: Option<Reading>| TimerPacketInner::Battery { level, voltage: None };
    assert!(battery(Some(Reading::UInt(1))).same(&battery(Some(Reading::UInt(1)))));
    assert!(!battery(Some(Reading::UInt(1))).same(&battery(Some(Reading::NegInt(-1)))));
    assert!(!battery(None).same(&battery(Some(Reading::Decimal(String::from("1.5"))))));
    let tagged = |tag: Option<u64>| TimerPacket { tag, data: TimerPacketInner::AttendanceMarked };
    assert!(tagged(Some(3)).same(&tagged(Some(3))));
    assert!(!tagged(Some(3)).same(&tagged(None)));
    assert!(!tagged(Some(3)).same(&tagged(Some(4))));
}
