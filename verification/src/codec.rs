//! The message schema: how a packet is laid out as a JSON document and how a
//! document is read back as a packet.
//!
//! A packet is an object with an optional `tag` and a `data` member. `data`
//! is an object with one member, named after the message in snake case,
//! whose value holds the message's fields; the message without fields is
//! written as the bare name.

use crate::json::{
    Json, JsonDoc, canonical, get_member, items_view, json_parse, json_text, lemma_array_view,
    lemma_object_view, member, member_from, members_view, parse_json, print_json,
};
use crate::structs::{
    ApiError, ApiErrorView, CardInfoResponsePacket, CardInfoResponseView, Reading, ReadingView,
    TimerPacket, TimerPacketInner, TimerPacketInnerView, TimerPacketView, reading_view,
};
use vstd::prelude::*;

verus! {

/// The document of a reading.
pub open spec fn reading_doc(reading: ReadingView) -> JsonDoc {
    match reading {
        ReadingView::UInt(u) => JsonDoc::UInt(u),
        ReadingView::NegInt(i) => JsonDoc::NegInt(i),
        ReadingView::Decimal(text) => JsonDoc::Decimal(text),
    }
}

/// The document of an optional reading: an absent one is `null`.
pub open spec fn optional_reading_doc(reading: Option<ReadingView>) -> JsonDoc {
    match reading {
        Some(r) => reading_doc(r),
        None => JsonDoc::Null,
    }
}

/// The document of a list of lines: an array of strings.
pub open spec fn lines_doc(lines: Seq<Seq<char>>) -> JsonDoc {
    JsonDoc::Array(Seq::new(lines.len(), |i: int| JsonDoc::Str(lines[i])))
}

/// The document of a message with fields: one member, named after the
/// message, that holds the fields.
pub open spec fn variant_doc(name: Seq<char>, fields: Seq<(Seq<char>, JsonDoc)>) -> JsonDoc {
    JsonDoc::Object(seq![(name, JsonDoc::Object(fields))])
}

/// The document of a message.
pub open spec fn message_doc(message: TimerPacketInnerView) -> JsonDoc {
    match message {
        TimerPacketInnerView::StartUpdate {
            target_version,
            image_size,
            checksum,
            target_firmware_name,
        } => variant_doc(
            "start_update"@,
            seq![
                ("target_version"@, JsonDoc::Str(target_version)),
                ("image_size"@, JsonDoc::UInt(image_size as u64)),
                ("checksum"@, JsonDoc::UInt(checksum as u64)),
                ("target_firmware_name"@, JsonDoc::Str(target_firmware_name)),
            ],
        ),
        TimerPacketInnerView::ApiError(error) => variant_doc(
            "api_error"@,
            seq![
                ("message"@, JsonDoc::Str(error.message)),
                ("should_reset_time"@, JsonDoc::Bool(error.should_reset_time)),
            ],
        ),
        TimerPacketInnerView::CardInfoRequest { card_id, attendance_device } => variant_doc(
            "card_info_request"@,
            match attendance_device {
                Some(flag) => seq![
                    ("card_id"@, JsonDoc::UInt(card_id)),
                    ("attendance_device"@, JsonDoc::Bool(flag)),
                ],
                None => seq![("card_id"@, JsonDoc::UInt(card_id))],
            },
        ),
        TimerPacketInnerView::CardInfoResponse(info) => variant_doc(
            "card_info_response"@,
            seq![
                ("card_id"@, JsonDoc::UInt(info.card_id)),
                ("display_name"@, JsonDoc::Str(info.display_name)),
                ("country_code"@, JsonDoc::Str(info.country_code)),
                ("eligible"@, JsonDoc::Bool(info.eligible)),
            ],
        ),
        TimerPacketInnerView::AttendanceMarked => JsonDoc::Str("attendance_marked"@),
        TimerPacketInnerView::DeviceSettings { registered } => variant_doc(
            "device_settings"@,
            seq![("registered"@, JsonDoc::Bool(registered))],
        ),
        TimerPacketInnerView::Logs { lines } => variant_doc(
            "logs"@,
            seq![("lines"@, lines_doc(lines))],
        ),
        TimerPacketInnerView::Battery { level, voltage } => variant_doc(
            "battery"@,
            seq![
                ("level"@, optional_reading_doc(level)),
                ("voltage"@, optional_reading_doc(voltage)),
            ],
        ),
        TimerPacketInnerView::Add { firmware_name } => variant_doc(
            "add"@,
            seq![("firmware_name"@, JsonDoc::Str(firmware_name))],
        ),
        TimerPacketInnerView::EpochTime { current_epoch } => variant_doc(
            "epoch_time"@,
            seq![("current_epoch"@, JsonDoc::UInt(current_epoch))],
        ),
    }
}

/// The document of a packet. A packet without a tag has no `tag` member.
pub open spec fn packet_doc(packet: TimerPacketView) -> JsonDoc {
    JsonDoc::Object(
        match packet.tag {
            Some(tag) => seq![("tag"@, JsonDoc::UInt(tag)), ("data"@, message_doc(packet.data))],
            None => seq![("data"@, message_doc(packet.data))],
        },
    )
}

/// One member of an object.
fn field(key: &str, value: Json) -> (member: (String, Json))
    ensures
        member.0@ == key@,
        member.1@ == value@,
{
    (key.to_owned(), value)
}

/// An object with one member.
fn object1(a: (String, Json)) -> (json: Json)
    ensures
        json@ == JsonDoc::Object(seq![(a.0@, a.1@)]),
{
    let mut members: Vec<(String, Json)> = Vec::new();
    members.push(a);
    proof {
        lemma_object_view(members);
        assert(members_view(members@) =~= seq![(a.0@, a.1@)]);
    }
    Json::Object(members)
}

/// An object with two members.
fn object2(a: (String, Json), b: (String, Json)) -> (json: Json)
    ensures
        json@ == JsonDoc::Object(seq![(a.0@, a.1@), (b.0@, b.1@)]),
{
    let mut members: Vec<(String, Json)> = Vec::new();
    members.push(a);
    members.push(b);
    proof {
        lemma_object_view(members);
        assert(members_view(members@) =~= seq![(a.0@, a.1@), (b.0@, b.1@)]);
    }
    Json::Object(members)
}

/// An object with four members.
fn object4(a: (String, Json), b: (String, Json), c: (String, Json), d: (String, Json)) -> (json:
    Json)
    ensures
        json@ == JsonDoc::Object(seq![(a.0@, a.1@), (b.0@, b.1@), (c.0@, c.1@), (d.0@, d.1@)]),
{
    let mut members: Vec<(String, Json)> = Vec::new();
    members.push(a);
    members.push(b);
    members.push(c);
    members.push(d);
    proof {
        lemma_object_view(members);
        assert(members_view(members@) =~= seq![
            (a.0@, a.1@),
            (b.0@, b.1@),
            (c.0@, c.1@),
            (d.0@, d.1@),
        ]);
    }
    Json::Object(members)
}

/// The JSON string with the contents of `text`.
fn string_json(text: &String) -> (json: Json)
    ensures
        json@ == JsonDoc::Str(text@),
{
    Json::Str(text.clone())
}

/// Lays a reading out as a document.
fn reading_to_json(reading: &Option<Reading>) -> (json: Json)
    ensures
        json@ == optional_reading_doc(reading_view(*reading)),
{
    match reading {
        Some(Reading::UInt(u)) => Json::UInt(*u),
        Some(Reading::NegInt(i)) => Json::NegInt(*i),
        Some(Reading::Decimal(text)) => Json::Decimal(text.clone()),
        None => Json::Null,
    }
}

/// Lays a list of lines out as an array of strings.
fn lines_to_json(lines: &Vec<String>) -> (json: Json)
    ensures
        json@ == lines_doc(lines.deep_view()),
{
    let mut items: Vec<Json> = Vec::new();
    let mut i: usize = 0;
    while i < lines.len()
        invariant
            i <= lines.len(),
            items.len() == i,
            forall|k: int| 0 <= k < i ==> (#[trigger] items@[k])@ == JsonDoc::Str(lines@[k]@),
        decreases lines.len() - i,
    {
        items.push(Json::Str(lines[i].clone()));
        i += 1;
    }
    proof {
        lemma_array_view(items);
        assert(items_view(items@) =~= lines_doc(lines.deep_view())->Array_0);
    }
    Json::Array(items)
}

/// Lays a message out as a document.
pub fn message_to_json(message: &TimerPacketInner) -> (json: Json)
    ensures
        json@ == message_doc(message@),
{
    match message {
        TimerPacketInner::StartUpdate {
            target_version,
            image_size,
            checksum,
            target_firmware_name,
        } => object1(
            field(
                "start_update",
                object4(
                    field("target_version", string_json(target_version)),
                    field("image_size", Json::UInt(*image_size as u64)),
                    field("checksum", Json::UInt(*checksum as u64)),
                    field("target_firmware_name", string_json(target_firmware_name)),
                ),
            ),
        ),
        TimerPacketInner::ApiError(error) => object1(
            field(
                "api_error",
                object2(
                    field("message", string_json(&error.message)),
                    field("should_reset_time", Json::Bool(error.should_reset_time)),
                ),
            ),
        ),
        TimerPacketInner::CardInfoRequest { card_id, attendance_device } => {
            let fields = match attendance_device {
                Some(flag) => object2(
                    field("card_id", Json::UInt(*card_id)),
                    field("attendance_device", Json::Bool(*flag)),
                ),
                None => object1(field("card_id", Json::UInt(*card_id))),
            };
            object1(field("card_info_request", fields))
        },
        TimerPacketInner::CardInfoResponse(info) => object1(
            field(
                "card_info_response",
                object4(
                    field("card_id", Json::UInt(info.card_id)),
                    field("display_name", string_json(&info.display_name)),
                    field("country_code", string_json(&info.country_code)),
                    field("eligible", Json::Bool(info.eligible)),
                ),
            ),
        ),
        TimerPacketInner::AttendanceMarked => Json::Str("attendance_marked".to_owned()),
        TimerPacketInner::DeviceSettings { registered } => object1(
            field("device_settings", object1(field("registered", Json::Bool(*registered)))),
        ),
        TimerPacketInner::Logs { lines } => object1(
            field("logs", object1(field("lines", lines_to_json(lines)))),
        ),
        TimerPacketInner::Battery { level, voltage } => object1(
            field(
                "battery",
                object2(
                    field("level", reading_to_json(level)),
                    field("voltage", reading_to_json(voltage)),
                ),
            ),
        ),
        TimerPacketInner::Add { firmware_name } => object1(
            field("add", object1(field("firmware_name", string_json(firmware_name)))),
        ),
        TimerPacketInner::EpochTime { current_epoch } => object1(
            field("epoch_time", object1(field("current_epoch", Json::UInt(*current_epoch)))),
        ),
    }
}

/// Lays a packet out as a document.
pub fn packet_to_json(packet: &TimerPacket) -> (json: Json)
    ensures
        json@ == packet_doc(packet@),
{
    let data = field("data", message_to_json(&packet.data));
    match packet.tag {
        Some(tag) => object2(field("tag", Json::UInt(tag)), data),
        None => object1(data),
    }
}

/// The string that a member holds, if it is there and is a string.
pub open spec fn doc_str(found: Option<JsonDoc>) -> Option<Seq<char>> {
    match found {
        Some(JsonDoc::Str(text)) => Some(text),
        _ => None,
    }
}

/// The truth value that a member holds, if it is there and is one.
pub open spec fn doc_bool(found: Option<JsonDoc>) -> Option<bool> {
    match found {
        Some(JsonDoc::Bool(flag)) => Some(flag),
        _ => None,
    }
}

/// The 64-bit unsigned number that a member holds, if it is there and is one.
pub open spec fn doc_u64(found: Option<JsonDoc>) -> Option<u64> {
    match found {
        Some(JsonDoc::UInt(number)) => Some(number),
        _ => None,
    }
}

/// The 32-bit unsigned number that a member holds, if it is there and fits.
pub open spec fn doc_u32(found: Option<JsonDoc>) -> Option<u32> {
    match found {
        Some(JsonDoc::UInt(number)) => if number <= u32::MAX {
            Some(number as u32)
        } else {
            None
        },
        _ => None,
    }
}

/// An optional truth value: a missing member and `null` both stand for
/// none; anything but a truth value is a fault.
pub open spec fn doc_optional_bool(found: Option<JsonDoc>) -> Option<Option<bool>> {
    match found {
        None => Some(None),
        Some(JsonDoc::Null) => Some(None),
        Some(JsonDoc::Bool(flag)) => Some(Some(flag)),
        _ => None,
    }
}

/// An optional 64-bit unsigned number, read like an optional truth value.
pub open spec fn doc_optional_u64(found: Option<JsonDoc>) -> Option<Option<u64>> {
    match found {
        None => Some(None),
        Some(JsonDoc::Null) => Some(None),
        Some(JsonDoc::UInt(number)) => Some(Some(number)),
        _ => None,
    }
}

/// An optional reading, read like an optional truth value.
pub open spec fn doc_optional_reading(found: Option<JsonDoc>) -> Option<Option<ReadingView>> {
    match found {
        None => Some(None),
        Some(JsonDoc::Null) => Some(None),
        Some(JsonDoc::UInt(number)) => Some(Some(ReadingView::UInt(number))),
        Some(JsonDoc::NegInt(number)) => Some(Some(ReadingView::NegInt(number))),
        Some(JsonDoc::Decimal(text)) => Some(Some(ReadingView::Decimal(text))),
        _ => None,
    }
}

/// Every item of `items` is a string.
pub open spec fn all_strings(items: Seq<JsonDoc>) -> bool {
    forall|i: int| 0 <= i < items.len() ==> (#[trigger] items[i]) is Str
}

/// The lines that a member holds, if it is there and is an array of strings.
pub open spec fn doc_lines(found: Option<JsonDoc>) -> Option<Seq<Seq<char>>> {
    match found {
        Some(JsonDoc::Array(items)) => if all_strings(items) {
            Some(Seq::new(items.len(), |i: int| items[i]->Str_0))
        } else {
            None
        },
        _ => None,
    }
}

/// The fields of a message, if the message's value is an object.
pub open spec fn doc_fields(content: JsonDoc) -> Option<Seq<(Seq<char>, JsonDoc)>> {
    match content {
        JsonDoc::Object(fields) => Some(fields),
        _ => None,
    }
}

/// Reads the fields of a firmware announcement.
pub open spec fn doc_start_update(fields: Seq<(Seq<char>, JsonDoc)>) -> Option<
    TimerPacketInnerView,
> {
    match (
        doc_str(member(fields, "target_version"@)),
        doc_u32(member(fields, "image_size"@)),
        doc_u32(member(fields, "checksum"@)),
        doc_str(member(fields, "target_firmware_name"@)),
    ) {
        (
            Some(target_version),
            Some(image_size),
            Some(checksum),
            Some(target_firmware_name),
        ) => Some(
            TimerPacketInnerView::StartUpdate {
                target_version,
                image_size,
                checksum,
                target_firmware_name,
            },
        ),
        _ => None,
    }
}

/// Reads the fields of a reported failure.
pub open spec fn doc_api_error(fields: Seq<(Seq<char>, JsonDoc)>) -> Option<TimerPacketInnerView> {
    match (doc_str(member(fields, "message"@)), doc_bool(member(fields, "should_reset_time"@))) {
        (Some(message), Some(should_reset_time)) => Some(
            TimerPacketInnerView::ApiError(ApiErrorView { message, should_reset_time }),
        ),
        _ => None,
    }
}

/// Reads the fields of a card request.
pub open spec fn doc_card_info_request(fields: Seq<(Seq<char>, JsonDoc)>) -> Option<
    TimerPacketInnerView,
> {
    match (
        doc_u64(member(fields, "card_id"@)),
        doc_optional_bool(member(fields, "attendance_device"@)),
    ) {
        (Some(card_id), Some(attendance_device)) => Some(
            TimerPacketInnerView::CardInfoRequest { card_id, attendance_device },
        ),
        _ => None,
    }
}

/// Reads the fields of a card answer.
pub open spec fn doc_card_info_response(fields: Seq<(Seq<char>, JsonDoc)>) -> Option<
    TimerPacketInnerView,
> {
    match (
        doc_u64(member(fields, "card_id"@)),
        doc_str(member(fields, "display_name"@)),
        doc_str(member(fields, "country_code"@)),
        doc_bool(member(fields, "eligible"@)),
    ) {
        (Some(card_id), Some(display_name), Some(country_code), Some(eligible)) => Some(
            TimerPacketInnerView::CardInfoResponse(
                CardInfoResponseView { card_id, display_name, country_code, eligible },
            ),
        ),
        _ => None,
    }
}

/// Reads the fields of the device settings.
pub open spec fn doc_device_settings(fields: Seq<(Seq<char>, JsonDoc)>) -> Option<
    TimerPacketInnerView,
> {
    match doc_bool(member(fields, "registered"@)) {
        Some(registered) => Some(TimerPacketInnerView::DeviceSettings { registered }),
        None => None,
    }
}

/// Reads the fields of a log shipment.
pub open spec fn doc_logs(fields: Seq<(Seq<char>, JsonDoc)>) -> Option<TimerPacketInnerView> {
    match doc_lines(member(fields, "lines"@)) {
        Some(lines) => Some(TimerPacketInnerView::Logs { lines }),
        None => None,
    }
}

/// Reads the fields of a battery report.
pub open spec fn doc_battery(fields: Seq<(Seq<char>, JsonDoc)>) -> Option<TimerPacketInnerView> {
    match (
        doc_optional_reading(member(fields, "level"@)),
        doc_optional_reading(member(fields, "voltage"@)),
    ) {
        (Some(level), Some(voltage)) => Some(TimerPacketInnerView::Battery { level, voltage }),
        _ => None,
    }
}

/// Reads the fields of a registration request.
pub open spec fn doc_add(fields: Seq<(Seq<char>, JsonDoc)>) -> Option<TimerPacketInnerView> {
    match doc_str(member(fields, "firmware_name"@)) {
        Some(firmware_name) => Some(TimerPacketInnerView::Add { firmware_name }),
        None => None,
    }
}

/// Reads the fields of a time announcement.
pub open spec fn doc_epoch_time(fields: Seq<(Seq<char>, JsonDoc)>) -> Option<TimerPacketInnerView> {
    match doc_u64(member(fields, "current_epoch"@)) {
        Some(current_epoch) => Some(TimerPacketInnerView::EpochTime { current_epoch }),
        None => None,
    }
}

/// Reads the message that is written under `name`. A name outside the
/// schema is a fault, and so is a value of the wrong shape.
pub open spec fn doc_variant(name: Seq<char>, content: JsonDoc) -> Option<TimerPacketInnerView> {
    if name == "attendance_marked"@ {
        if content is Null {
            Some(TimerPacketInnerView::AttendanceMarked)
        } else {
            None
        }
    } else {
        match doc_fields(content) {
            None => None,
            Some(fields) => if name == "start_update"@ {
                doc_start_update(fields)
            } else if name == "api_error"@ {
                doc_api_error(fields)
            } else if name == "card_info_request"@ {
                doc_card_info_request(fields)
            } else if name == "card_info_response"@ {
                doc_card_info_response(fields)
            } else if name == "device_settings"@ {
                doc_device_settings(fields)
            } else if name == "logs"@ {
                doc_logs(fields)
            } else if name == "battery"@ {
                doc_battery(fields)
            } else if name == "add"@ {
                doc_add(fields)
            } else if name == "epoch_time"@ {
                doc_epoch_time(fields)
            } else {
                None
            },
        }
    }
}

/// Reads a message: either the bare name of the message without fields, or
/// an object with exactly one member.
pub open spec fn doc_message(doc: JsonDoc) -> Option<TimerPacketInnerView> {
    match doc {
        JsonDoc::Str(name) => if name == "attendance_marked"@ {
            Some(TimerPacketInnerView::AttendanceMarked)
        } else {
            None
        },
        JsonDoc::Object(members) => if members.len() == 1 {
            doc_variant(members[0].0, members[0].1)
        } else {
            None
        },
        _ => None,
    }
}

/// Reads a packet: an object whose `tag`, if it has one, is a 64-bit
/// unsigned number and whose `data` is a message. Other members are
/// passed over.
pub open spec fn doc_packet(doc: JsonDoc) -> Option<TimerPacketView> {
    match doc {
        JsonDoc::Object(members) => match (
            doc_optional_u64(member(members, "tag"@)),
            member(members, "data"@),
        ) {
            (Some(tag), Some(data)) => match doc_message(data) {
                Some(message) => Some(TimerPacketView { tag, data: message }),
                None => None,
            },
            _ => None,
        },
        _ => None,
    }
}

/// The view of an optional message.
pub open spec fn optional_message_view(message: Option<TimerPacketInner>) -> Option<
    TimerPacketInnerView,
> {
    match message {
        Some(m) => Some(m@),
        None => None,
    }
}

/// The view of an optional packet.
pub open spec fn optional_packet_view(packet: Option<TimerPacket>) -> Option<TimerPacketView> {
    match packet {
        Some(p) => Some(p@),
        None => None,
    }
}

/// The view of what a lookup in an object found.
pub open spec fn found_view(found: Option<&Json>) -> Option<JsonDoc> {
    match found {
        Some(json) => Some(json@),
        None => None,
    }
}

fn read_str(found: Option<&Json>) -> (text: Option<String>)
    ensures
        match text {
            Some(t) => doc_str(found_view(found)) == Some(t@),
            None => doc_str(found_view(found)) is None,
        },
{
    match found {
        Some(Json::Str(text)) => Some(text.clone()),
        _ => None,
    }
}

fn read_bool(found: Option<&Json>) -> (flag: Option<bool>)
    ensures
        flag == doc_bool(found_view(found)),
{
    match found {
        Some(Json::Bool(flag)) => Some(*flag),
        _ => None,
    }
}

fn read_u64(found: Option<&Json>) -> (number: Option<u64>)
    ensures
        number == doc_u64(found_view(found)),
{
    match found {
        Some(Json::UInt(number)) => Some(*number),
        _ => None,
    }
}

fn read_u32(found: Option<&Json>) -> (number: Option<u32>)
    ensures
        number == doc_u32(found_view(found)),
{
    match found {
        Some(Json::UInt(number)) => if *number <= 0xffff_ffff {
            Some(*number as u32)
        } else {
            None
        },
        _ => None,
    }
}

fn read_optional_bool(found: Option<&Json>) -> (flag: Option<Option<bool>>)
    ensures
        flag == doc_optional_bool(found_view(found)),
{
    match found {
        None => Some(None),
        Some(Json::Null) => Some(None),
        Some(Json::Bool(flag)) => Some(Some(*flag)),
        _ => None,
    }
}

fn read_optional_u64(found: Option<&Json>) -> (number: Option<Option<u64>>)
    ensures
        number == doc_optional_u64(found_view(found)),
{
    match found {
        None => Some(None),
        Some(Json::Null) => Some(None),
        Some(Json::UInt(number)) => Some(Some(*number)),
        _ => None,
    }
}

fn read_optional_reading(found: Option<&Json>) -> (reading: Option<Option<Reading>>)
    ensures
        match reading {
            Some(r) => doc_optional_reading(found_view(found)) == Some(reading_view(r)),
            None => doc_optional_reading(found_view(found)) is None,
        },
{
    match found {
        None => Some(None),
        Some(Json::Null) => Some(None),
        Some(Json::UInt(number)) => Some(Some(Reading::UInt(*number))),
        Some(Json::NegInt(number)) => Some(Some(Reading::NegInt(*number))),
        Some(Json::Decimal(text)) => Some(Some(Reading::Decimal(text.clone()))),
        _ => None,
    }
}

/// The strings of an array, if all of its items are strings.
fn read_strings(items: &Vec<Json>) -> (lines: Option<Vec<String>>)
    ensures
        match lines {
            Some(l) => all_strings(items_view(items@)) && l.deep_view() == Seq::new(
                items@.len(),
                |i: int| items_view(items@)[i]->Str_0,
            ),
            None => !all_strings(items_view(items@)),
        },
{
    let mut lines: Vec<String> = Vec::new();
    let mut i: usize = 0;
    while i < items.len()
        invariant
            i <= items.len(),
            lines.len() == i,
            forall|k: int| 0 <= k < i ==> (#[trigger] items_view(items@)[k]) is Str,
            forall|k: int| 0 <= k < i ==> (#[trigger] lines@[k])@ == items_view(items@)[k]->Str_0,
        decreases items.len() - i,
    {
        match &items[i] {
            Json::Str(text) => {
                lines.push(text.clone());
            },
            _ => {
                assert(!(items_view(items@)[i as int] is Str));
                return None;
            },
        }
        i += 1;
    }
    Some(lines)
}

fn read_lines(found: Option<&Json>) -> (lines: Option<Vec<String>>)
    ensures
        match lines {
            Some(l) => doc_lines(found_view(found)) == Some(l.deep_view()),
            None => doc_lines(found_view(found)) is None,
        },
{
    match found {
        Some(Json::Array(items)) => {
            proof {
                lemma_array_view(*items);
            }
            read_strings(items)
        },
        _ => None,
    }
}

/// Whether a text is the given word.
fn is_word(text: &String, word: &str) -> (same: bool)
    ensures
        same == (text@ == word@),
{
    let wanted: String = word.to_owned();
    *text == wanted
}

fn read_start_update(fields: &Vec<(String, Json)>) -> (message: Option<TimerPacketInner>)
    ensures
        optional_message_view(message) == doc_start_update(members_view(fields@)),
{
    let target_version = read_str(get_member(fields, "target_version"));
    let image_size = read_u32(get_member(fields, "image_size"));
    let checksum = read_u32(get_member(fields, "checksum"));
    let target_firmware_name = read_str(get_member(fields, "target_firmware_name"));
    match (target_version, image_size, checksum, target_firmware_name) {
        (
            Some(target_version),
            Some(image_size),
            Some(checksum),
            Some(target_firmware_name),
        ) => Some(
            TimerPacketInner::StartUpdate {
                target_version,
                image_size,
                checksum,
                target_firmware_name,
            },
        ),
        _ => None,
    }
}

fn read_api_error(fields: &Vec<(String, Json)>) -> (message: Option<TimerPacketInner>)
    ensures
        optional_message_view(message) == doc_api_error(members_view(fields@)),
{
    let message = read_str(get_member(fields, "message"));
    let should_reset_time = read_bool(get_member(fields, "should_reset_time"));
    match (message, should_reset_time) {
        (Some(message), Some(should_reset_time)) => Some(
            TimerPacketInner::ApiError(ApiError { message, should_reset_time }),
        ),
        _ => None,
    }
}

fn read_card_info_request(fields: &Vec<(String, Json)>) -> (message: Option<TimerPacketInner>)
    ensures
        optional_message_view(message) == doc_card_info_request(members_view(fields@)),
{
    let card_id = read_u64(get_member(fields, "card_id"));
    let attendance_device = read_optional_bool(get_member(fields, "attendance_device"));
    match (card_id, attendance_device) {
        (Some(card_id), Some(attendance_device)) => Some(
            TimerPacketInner::CardInfoRequest { card_id, attendance_device },
        ),
        _ => None,
    }
}

fn read_card_info_response(fields: &Vec<(String, Json)>) -> (message: Option<TimerPacketInner>)
    ensures
        optional_message_view(message) == doc_card_info_response(members_view(fields@)),
{
    let card_id = read_u64(get_member(fields, "card_id"));
    let display_name = read_str(get_member(fields, "display_name"));
    let country_code = read_str(get_member(fields, "country_code"));
    let eligible = read_bool(get_member(fields, "eligible"));
    match (card_id, display_name, country_code, eligible) {
        (Some(card_id), Some(display_name), Some(country_code), Some(eligible)) => Some(
            TimerPacketInner::CardInfoResponse(
                CardInfoResponsePacket { card_id, display_name, country_code, eligible },
            ),
        ),
        _ => None,
    }
}

fn read_device_settings(fields: &Vec<(String, Json)>) -> (message: Option<TimerPacketInner>)
    ensures
        optional_message_view(message) == doc_device_settings(members_view(fields@)),
{
    match read_bool(get_member(fields, "registered")) {
        Some(registered) => Some(TimerPacketInner::DeviceSettings { registered }),
        None => None,
    }
}

fn read_logs(fields: &Vec<(String, Json)>) -> (message: Option<TimerPacketInner>)
    ensures
        optional_message_view(message) == doc_logs(members_view(fields@)),
{
    match read_lines(get_member(fields, "lines")) {
        Some(lines) => Some(TimerPacketInner::Logs { lines }),
        None => None,
    }
}

fn read_battery(fields: &Vec<(String, Json)>) -> (message: Option<TimerPacketInner>)
    ensures
        optional_message_view(message) == doc_battery(members_view(fields@)),
{
    let level = read_optional_reading(get_member(fields, "level"));
    let voltage = read_optional_reading(get_member(fields, "voltage"));
    match (level, voltage) {
        (Some(level), Some(voltage)) => Some(TimerPacketInner::Battery { level, voltage }),
        _ => None,
    }
}

fn read_add(fields: &Vec<(String, Json)>) -> (message: Option<TimerPacketInner>)
    ensures
        optional_message_view(message) == doc_add(members_view(fields@)),
{
    match read_str(get_member(fields, "firmware_name")) {
        Some(firmware_name) => Some(TimerPacketInner::Add { firmware_name }),
        None => None,
    }
}

fn read_epoch_time(fields: &Vec<(String, Json)>) -> (message: Option<TimerPacketInner>)
    ensures
        optional_message_view(message) == doc_epoch_time(members_view(fields@)),
{
    match read_u64(get_member(fields, "current_epoch")) {
        Some(current_epoch) => Some(TimerPacketInner::EpochTime { current_epoch }),
        None => None,
    }
}

fn read_variant(name: &String, content: &Json) -> (message: Option<TimerPacketInner>)
    ensures
        optional_message_view(message) == doc_variant(name@, content@),
{
    if is_word(name, "attendance_marked") {
        return match content {
            Json::Null => Some(TimerPacketInner::AttendanceMarked),
            _ => None,
        };
    }
    match content {
        Json::Object(fields) => {
            proof {
                lemma_object_view(*fields);
            }
            if is_word(name, "start_update") {
                read_start_update(fields)
            } else if is_word(name, "api_error") {
                read_api_error(fields)
            } else if is_word(name, "card_info_request") {
                read_card_info_request(fields)
            } else if is_word(name, "card_info_response") {
                read_card_info_response(fields)
            } else if is_word(name, "device_settings") {
                read_device_settings(fields)
            } else if is_word(name, "logs") {
                read_logs(fields)
            } else if is_word(name, "battery") {
                read_battery(fields)
            } else if is_word(name, "add") {
                read_add(fields)
            } else if is_word(name, "epoch_time") {
                read_epoch_time(fields)
            } else {
                None
            }
        },
        _ => None,
    }
}

/// Reads a message from its document. `None` where the document is not a
/// message of the schema.
pub fn message_from_json(json: &Json) -> (message: Option<TimerPacketInner>)
    ensures
        optional_message_view(message) == doc_message(json@),
{
    match json {
        Json::Str(name) => if is_word(name, "attendance_marked") {
            Some(TimerPacketInner::AttendanceMarked)
        } else {
            None
        },
        Json::Object(members) => {
            proof {
                lemma_object_view(*members);
            }
            if members.len() == 1 {
                read_variant(&members[0].0, &members[0].1)
            } else {
                None
            }
        },
        _ => None,
    }
}

/// Reads a packet from its document. `None` where the document is not a
/// packet of the schema.
pub fn packet_from_json(json: &Json) -> (packet: Option<TimerPacket>)
    ensures
        optional_packet_view(packet) == doc_packet(json@),
{
    match json {
        Json::Object(members) => {
            proof {
                lemma_object_view(*members);
            }
            let tag = read_optional_u64(get_member(members, "tag"));
            let data = get_member(members, "data");
            match (tag, data) {
                (Some(tag), Some(data)) => match message_from_json(data) {
                    Some(message) => Some(TimerPacket { tag, data: message }),
                    None => None,
                },
                _ => None,
            }
        },
        _ => None,
    }
}

/// The names of the messages are pairwise different.
pub proof fn lemma_message_names_differ()
    ensures
        "start_update"@ != "api_error"@,
        "start_update"@ != "card_info_request"@,
        "start_update"@ != "card_info_response"@,
        "start_update"@ != "attendance_marked"@,
        "start_update"@ != "device_settings"@,
        "start_update"@ != "logs"@,
        "start_update"@ != "battery"@,
        "start_update"@ != "add"@,
        "start_update"@ != "epoch_time"@,
        "api_error"@ != "card_info_request"@,
        "api_error"@ != "card_info_response"@,
        "api_error"@ != "attendance_marked"@,
        "api_error"@ != "device_settings"@,
        "api_error"@ != "logs"@,
        "api_error"@ != "battery"@,
        "api_error"@ != "add"@,
        "api_error"@ != "epoch_time"@,
        "card_info_request"@ != "card_info_response"@,
        "card_info_request"@ != "attendance_marked"@,
        "card_info_request"@ != "device_settings"@,
        "card_info_request"@ != "logs"@,
        "card_info_request"@ != "battery"@,
        "card_info_request"@ != "add"@,
        "card_info_request"@ != "epoch_time"@,
        "card_info_response"@ != "attendance_marked"@,
        "card_info_response"@ != "device_settings"@,
        "card_info_response"@ != "logs"@,
        "card_info_response"@ != "battery"@,
        "card_info_response"@ != "add"@,
        "card_info_response"@ != "epoch_time"@,
        "attendance_marked"@ != "device_settings"@,
        "attendance_marked"@ != "logs"@,
        "attendance_marked"@ != "battery"@,
        "attendance_marked"@ != "add"@,
        "attendance_marked"@ != "epoch_time"@,
        "device_settings"@ != "logs"@,
        "device_settings"@ != "battery"@,
        "device_settings"@ != "add"@,
        "device_settings"@ != "epoch_time"@,
        "logs"@ != "battery"@,
        "logs"@ != "add"@,
        "logs"@ != "epoch_time"@,
        "battery"@ != "add"@,
        "battery"@ != "epoch_time"@,
        "add"@ != "epoch_time"@,
{
    reveal_strlit("start_update");
    assert("start_update"@.len() == 12 && "start_update"@[0] == 's');
    reveal_strlit("api_error");
    assert("api_error"@.len() == 9 && "api_error"@[0] == 'a');
    reveal_strlit("card_info_request");
    assert("card_info_request"@.len() == 17 && "card_info_request"@[0] == 'c');
    reveal_strlit("card_info_response");
    assert("card_info_response"@.len() == 18 && "card_info_response"@[0] == 'c');
    reveal_strlit("attendance_marked");
    assert("attendance_marked"@.len() == 17 && "attendance_marked"@[0] == 'a');
    reveal_strlit("device_settings");
    assert("device_settings"@.len() == 15 && "device_settings"@[0] == 'd');
    reveal_strlit("logs");
    assert("logs"@.len() == 4 && "logs"@[0] == 'l');
    reveal_strlit("battery");
    assert("battery"@.len() == 7 && "battery"@[0] == 'b');
    reveal_strlit("add");
    assert("add"@.len() == 3 && "add"@[0] == 'a');
    reveal_strlit("epoch_time");
    assert("epoch_time"@.len() == 10 && "epoch_time"@[0] == 'e');
}

/// Within each message, and within a packet, the names of the fields are
/// pairwise different.
pub proof fn lemma_field_names_differ()
    ensures
        "target_version"@ != "image_size"@,
        "target_version"@ != "checksum"@,
        "target_version"@ != "target_firmware_name"@,
        "image_size"@ != "checksum"@,
        "image_size"@ != "target_firmware_name"@,
        "checksum"@ != "target_firmware_name"@,
        "message"@ != "should_reset_time"@,
        "card_id"@ != "attendance_device"@,
        "card_id"@ != "display_name"@,
        "card_id"@ != "country_code"@,
        "card_id"@ != "eligible"@,
        "display_name"@ != "country_code"@,
        "display_name"@ != "eligible"@,
        "country_code"@ != "eligible"@,
        "level"@ != "voltage"@,
        "tag"@ != "data"@,
{
    reveal_strlit("target_version");
    assert("target_version"@.len() == 14 && "target_version"@[0] == 't');
    reveal_strlit("image_size");
    assert("image_size"@.len() == 10 && "image_size"@[0] == 'i');
    reveal_strlit("checksum");
    assert("checksum"@.len() == 8 && "checksum"@[0] == 'c');
    reveal_strlit("target_firmware_name");
    assert("target_firmware_name"@.len() == 20 && "target_firmware_name"@[0] == 't');
    reveal_strlit("message");
    assert("message"@.len() == 7 && "message"@[0] == 'm');
    reveal_strlit("should_reset_time");
    assert("should_reset_time"@.len() == 17 && "should_reset_time"@[0] == 's');
    reveal_strlit("card_id");
    assert("card_id"@.len() == 7 && "card_id"@[0] == 'c');
    reveal_strlit("attendance_device");
    assert("attendance_device"@.len() == 17 && "attendance_device"@[0] == 'a');
    reveal_strlit("display_name");
    assert("display_name"@.len() == 12 && "display_name"@[0] == 'd');
    reveal_strlit("country_code");
    assert("country_code"@.len() == 12 && "country_code"@[0] == 'c');
    reveal_strlit("eligible");
    assert("eligible"@.len() == 8 && "eligible"@[0] == 'e');
    reveal_strlit("level");
    assert("level"@.len() == 5 && "level"@[0] == 'l');
    reveal_strlit("voltage");
    assert("voltage"@.len() == 7 && "voltage"@[0] == 'v');
    reveal_strlit("tag");
    assert("tag"@.len() == 3 && "tag"@[0] == 't');
    reveal_strlit("data");
    assert("data"@.len() == 4 && "data"@[0] == 'd');
}

/// Reading back the document of a reading gives the reading.
pub proof fn lemma_reading_round_trip(reading: Option<ReadingView>)
    ensures
        doc_optional_reading(Some(optional_reading_doc(reading))) == Some(reading),
{
}

/// Reading back the document of a list of lines gives the lines.
pub proof fn lemma_lines_round_trip(lines: Seq<Seq<char>>)
    ensures
        doc_lines(Some(lines_doc(lines))) == Some(lines),
{
}

/// Reading back the document of a message gives the message.
pub proof fn lemma_message_round_trip(message: TimerPacketInnerView)
    ensures
        doc_message(message_doc(message)) == Some(message),
{
    lemma_message_names_differ();
    lemma_field_names_differ();
    reveal_with_fuel(member_from, 5);
    match message {
        TimerPacketInnerView::Logs { lines } => {
            lemma_lines_round_trip(lines);
        },
        TimerPacketInnerView::Battery { level, voltage } => {
            lemma_reading_round_trip(level);
            lemma_reading_round_trip(voltage);
        },
        _ => {},
    }
}

/// Encoding a packet and decoding the result gives the packet back: the
/// document of a packet reads as that packet, whatever the packet holds.
pub proof fn lemma_packet_round_trip(packet: TimerPacketView)
    ensures
        doc_packet(packet_doc(packet)) == Some(packet),
{
    lemma_field_names_differ();
    lemma_message_round_trip(packet.data);
    reveal_with_fuel(member_from, 3);
}

/// A reading that can be written out: a negative integer is negative, and
/// the text of a decimal is one that the parser reads as that very decimal.
pub open spec fn reading_canonical(reading: Option<ReadingView>) -> bool {
    canonical(optional_reading_doc(reading))
}

/// A packet that can be written out: its readings, if it has any, can be.
pub open spec fn packet_canonical(packet: TimerPacketView) -> bool {
    match packet.data {
        TimerPacketInnerView::Battery { level, voltage } => reading_canonical(level)
            && reading_canonical(voltage),
        _ => true,
    }
}

/// The document of a message is canonical exactly where its readings are.
pub proof fn lemma_message_doc_canonical(message: TimerPacketInnerView)
    ensures
        canonical(message_doc(message)) == packet_canonical(
            TimerPacketView { tag: None, data: message },
        ),
{
    lemma_field_names_differ();
    reveal_with_fuel(canonical, 4);
    match message {
        TimerPacketInnerView::Battery { level, voltage } => {
            let fields = seq![
                ("level"@, optional_reading_doc(level)),
                ("voltage"@, optional_reading_doc(voltage)),
            ];
            let outer = seq![("battery"@, JsonDoc::Object(fields))];
            assert(outer[0].1 == JsonDoc::Object(fields));
        },
        _ => {},
    }
}

/// The document of a packet is canonical exactly where its readings are.
pub proof fn lemma_packet_doc_canonical(packet: TimerPacketView)
    ensures
        canonical(packet_doc(packet)) == packet_canonical(packet),
{
    lemma_field_names_differ();
    lemma_message_doc_canonical(packet.data);
    reveal_with_fuel(canonical, 2);
    let members = packet_doc(packet)->Object_0;
    match packet.tag {
        Some(tag) => {
        },
        None => {
            assert(members[0].1 == message_doc(packet.data));
        },
    }
}

/// Whether a reading can be written out.
pub fn reading_is_canonical(reading: &Option<Reading>) -> (ok: bool)
    ensures
        ok == reading_canonical(reading_view(*reading)),
{
    match reading {
        None => true,
        Some(Reading::UInt(_)) => true,
        Some(Reading::NegInt(number)) => *number < 0,
        Some(Reading::Decimal(text)) => match parse_json(text.as_str()) {
            Some(Json::Decimal(back)) => back == *text,
            _ => false,
        },
    }
}

impl Reading {
    /// Takes a reading from the JSON text of a number. `None` where the text
    /// is not the text that a number is written out as.
    pub fn from_text(text: &str) -> (reading: Option<Reading>)
        ensures
            match reading {
                Some(r) => json_parse(text@) == Some(reading_doc(r@)) && reading_canonical(
                    Some(r@),
                ),
                None => !({
                    &&& json_parse(text@) matches Some(doc)
                    &&& canonical(doc)
                    &&& doc is UInt || doc is NegInt || doc == JsonDoc::Decimal(text@)
                }),
            },
    {
        match parse_json(text) {
            Some(Json::UInt(number)) => Some(Reading::UInt(number)),
            Some(Json::NegInt(number)) => if number < 0 {
                Some(Reading::NegInt(number))
            } else {
                None
            },
            Some(Json::Decimal(back)) => if is_word(&back, text) {
                Some(Reading::Decimal(back))
            } else {
                None
            },
            _ => None,
        }
    }
}

/// What a text decodes to: the packet that its document reads as, where
/// the text is a JSON document at all.
pub open spec fn decoded(text: Seq<char>) -> Option<TimerPacketView> {
    match json_parse(text) {
        Some(doc) => doc_packet(doc),
        None => None,
    }
}

/// Encodes a packet as the JSON text of its document. `None` exactly where
/// the packet holds a reading that cannot be written out.
pub fn encode_packet(packet: &TimerPacket) -> (text: Option<String>)
    ensures
        match text {
            Some(t) => packet_canonical(packet@) && t@ == json_text(packet_doc(packet@)),
            None => !packet_canonical(packet@),
        },
{
    let writable = match &packet.data {
        TimerPacketInner::Battery { level, voltage } => reading_is_canonical(level)
            && reading_is_canonical(voltage),
        _ => true,
    };
    if !writable {
        return None;
    }
    let json = packet_to_json(packet);
    proof {
        lemma_packet_doc_canonical(packet@);
    }
    Some(print_json(&json))
}

/// Decodes a text frame: parses the text and reads the document as a
/// packet. `None` where either step fails.
pub fn decode_packet(text: &str) -> (packet: Option<TimerPacket>)
    ensures
        optional_packet_view(packet) == decoded(text@),
{
    match parse_json(text) {
        Some(json) => packet_from_json(&json),
        None => None,
    }
}

/// A packet that goes through text unharmed: it can be written out, and the
/// text that is written for it decodes to the packet again.
pub open spec fn round_trips(packet: TimerPacketView) -> bool {
    packet_canonical(packet) && decoded(json_text(packet_doc(packet))) == Some(packet)
}

/// Whether a text decodes to a given packet.
pub fn reads_back(text: &str, packet: &TimerPacket) -> (ok: bool)
    ensures
        ok == (decoded(text@) == Some(packet@)),
{
    match decode_packet(text) {
        Some(back) => back.same(packet),
        None => false,
    }
}

/// Encodes a packet and makes sure that the text decodes to the packet
/// again: the text of the result is one that gives the packet back. `None`
/// exactly where the packet does not go through text unharmed.
pub fn encode_checked(packet: &TimerPacket) -> (text: Option<String>)
    ensures
        match text {
            Some(t) => round_trips(packet@) && t@ == json_text(packet_doc(packet@)) && decoded(t@)
                == Some(packet@),
            None => !round_trips(packet@),
        },
{
    match encode_packet(packet) {
        Some(text) => if reads_back(text.as_str(), packet) {
            Some(text)
        } else {
            None
        },
        None => None,
    }
}

/// A packet that can be written out goes through text unharmed where the
/// parser reads the text that was written for the packet's document as that
/// document. Writing and reading the text is the work of the JSON layer;
/// nothing here says that the two agree, which is why [`encode_checked`]
/// looks.
pub proof fn lemma_text_round_trip(packet: TimerPacketView)
    ensures
        packet_canonical(packet) && json_parse(json_text(packet_doc(packet))) == Some(
            packet_doc(packet),
        ) ==> round_trips(packet),
{
    lemma_packet_round_trip(packet);
}

} // verus!
