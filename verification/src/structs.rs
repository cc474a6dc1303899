//! The messages that travel between the terminal and its server, and the
//! connection settings that the provisioning step leaves behind.

use vstd::prelude::*;

verus! {

/// How the terminal finds its server.
#[derive(Debug, Clone, PartialEq, Eq)]
pub struct ConnSettings {
    /// Look the server up by multicast DNS.
    pub mdns: bool,
    /// The server's address, where it was configured by hand.
    pub ws_url: Option<String>,
}

impl Default for ConnSettings {
    /// Without stored settings the terminal looks its server up.
    fn default() -> (settings: Self)
        ensures
            settings.mdns,
            settings.ws_url is None,
    {
        ConnSettings { mdns: true, ws_url: None }
    }
}

/// A failure that a request ends in: one that the server reported, or one
/// that the terminal made up for a request that got no usable answer.
#[derive(Debug, Clone, PartialEq, Eq)]
pub struct ApiError {
    pub message: String,
    pub should_reset_time: bool,
}

pub struct ApiErrorView {
    pub message: Seq<char>,
    pub should_reset_time: bool,
}

impl View for ApiError {
    type V = ApiErrorView;

    open spec fn view(&self) -> ApiErrorView {
        ApiErrorView { message: self.message@, should_reset_time: self.should_reset_time }
    }
}

impl ApiError {
    /// A copy with the same contents.
    pub fn duplicate(&self) -> (copy: ApiError)
        ensures
            copy@ == self@,
    {
        ApiError { message: self.message.clone(), should_reset_time: self.should_reset_time }
    }
}

/// What the server knows about a card.
#[derive(Debug, Clone, PartialEq, Eq)]
pub struct CardInfoResponsePacket {
    pub card_id: u64,
    pub display_name: String,
    pub country_code: String,
    pub eligible: bool,
}

pub struct CardInfoResponseView {
    pub card_id: u64,
    pub display_name: Seq<char>,
    pub country_code: Seq<char>,
    pub eligible: bool,
}

impl View for CardInfoResponsePacket {
    type V = CardInfoResponseView;

    open spec fn view(&self) -> CardInfoResponseView {
        CardInfoResponseView {
            card_id: self.card_id,
            display_name: self.display_name@,
            country_code: self.country_code@,
            eligible: self.eligible,
        }
    }
}

impl CardInfoResponsePacket {
    /// A copy with the same contents.
    pub fn duplicate(&self) -> (copy: CardInfoResponsePacket)
        ensures
            copy@ == self@,
    {
        CardInfoResponsePacket {
            card_id: self.card_id,
            display_name: self.display_name.clone(),
            country_code: self.country_code.clone(),
            eligible: self.eligible,
        }
    }
}

/// The server's acknowledgement that an attendance was recorded.
#[derive(Debug, Clone, Copy, PartialEq, Eq)]
pub struct AttendanceMarkedPacket {}

impl View for AttendanceMarkedPacket {
    type V = AttendanceMarkedPacket;

    open spec fn view(&self) -> AttendanceMarkedPacket {
        *self
    }
}

/// A telemetry reading as it stands in a JSON document: a whole number, or
/// the text of a decimal.
#[derive(Debug, Clone, PartialEq, Eq)]
pub enum Reading {
    UInt(u64),
    NegInt(i64),
    Decimal(String),
}

pub enum ReadingView {
    UInt(u64),
    NegInt(i64),
    Decimal(Seq<char>),
}

impl View for Reading {
    type V = ReadingView;

    open spec fn view(&self) -> ReadingView {
        match self {
            Reading::UInt(u) => ReadingView::UInt(*u),
            Reading::NegInt(i) => ReadingView::NegInt(*i),
            Reading::Decimal(text) => ReadingView::Decimal(text@),
        }
    }
}

impl Reading {
    /// A copy with the same contents.
    pub fn duplicate(&self) -> (copy: Reading)
        ensures
            copy@ == self@,
    {
        match self {
            Reading::UInt(u) => Reading::UInt(*u),
            Reading::NegInt(i) => Reading::NegInt(*i),
            Reading::Decimal(text) => Reading::Decimal(text.clone()),
        }
    }
}

/// The view of an optional reading.
pub open spec fn reading_view(reading: Option<Reading>) -> Option<ReadingView> {
    match reading {
        Some(r) => Some(r@),
        None => None,
    }
}

/// A copy of an optional reading.
pub fn duplicate_reading(reading: &Option<Reading>) -> (copy: Option<Reading>)
    ensures
        reading_view(copy) == reading_view(*reading),
{
    match reading {
        Some(r) => Some(r.duplicate()),
        None => None,
    }
}

/// A copy of a list of lines.
pub fn duplicate_lines(lines: &Vec<String>) -> (copy: Vec<String>)
    ensures
        copy.deep_view() == lines.deep_view(),
{
    let mut copy: Vec<String> = Vec::new();
    let mut i: usize = 0;
    while i < lines.len()
        invariant
            i <= lines.len(),
            copy.len() == i,
            forall|k: int| 0 <= k < i ==> copy@[k]@ == lines@[k]@,
        decreases lines.len() - i,
    {
        copy.push(lines[i].clone());
        i += 1;
    }
    copy
}

/// The payload of a packet: a closed set of messages.
#[derive(Debug, Clone, PartialEq, Eq)]
pub enum TimerPacketInner {
    /// The server announces a firmware image.
    StartUpdate {
        target_version: String,
        image_size: u32,
        checksum: u32,
        target_firmware_name: String,
    },
    /// The server reports a failure.
    ApiError(ApiError),
    /// The terminal asks about a card.
    CardInfoRequest { card_id: u64, attendance_device: Option<bool> },
    /// The server answers about a card.
    CardInfoResponse(CardInfoResponsePacket),
    /// The server has recorded an attendance.
    AttendanceMarked,
    /// The server says whether it knows this device.
    DeviceSettings { registered: bool },
    /// The terminal ships a batch of log lines.
    Logs { lines: Vec<String> },
    /// The terminal reports on its battery.
    Battery { level: Option<Reading>, voltage: Option<Reading> },
    /// The terminal asks to be registered.
    Add { firmware_name: String },
    /// The server tells the time, in seconds since the epoch.
    EpochTime { current_epoch: u64 },
}

pub enum TimerPacketInnerView {
    StartUpdate {
        target_version: Seq<char>,
        image_size: u32,
        checksum: u32,
        target_firmware_name: Seq<char>,
    },
    ApiError(ApiErrorView),
    CardInfoRequest { card_id: u64, attendance_device: Option<bool> },
    CardInfoResponse(CardInfoResponseView),
    AttendanceMarked,
    DeviceSettings { registered: bool },
    Logs { lines: Seq<Seq<char>> },
    Battery { level: Option<ReadingView>, voltage: Option<ReadingView> },
    Add { firmware_name: Seq<char> },
    EpochTime { current_epoch: u64 },
}

impl View for TimerPacketInner {
    type V = TimerPacketInnerView;

    open spec fn view(&self) -> TimerPacketInnerView {
        match self {
            TimerPacketInner::StartUpdate {
                target_version,
                image_size,
                checksum,
                target_firmware_name,
            } => TimerPacketInnerView::StartUpdate {
                target_version: target_version@,
                image_size: *image_size,
                checksum: *checksum,
                target_firmware_name: target_firmware_name@,
            },
            TimerPacketInner::ApiError(e) => TimerPacketInnerView::ApiError(e@),
            TimerPacketInner::CardInfoRequest {
                card_id,
                attendance_device,
            } => TimerPacketInnerView::CardInfoRequest {
                card_id: *card_id,
                attendance_device: *attendance_device,
            },
            TimerPacketInner::CardInfoResponse(c) => TimerPacketInnerView::CardInfoResponse(c@),
            TimerPacketInner::AttendanceMarked => TimerPacketInnerView::AttendanceMarked,
            TimerPacketInner::DeviceSettings { registered } => TimerPacketInnerView::DeviceSettings {
                registered: *registered,
            },
            TimerPacketInner::Logs { lines } => TimerPacketInnerView::Logs {
                lines: lines.deep_view(),
            },
            TimerPacketInner::Battery { level, voltage } => TimerPacketInnerView::Battery {
                level: reading_view(*level),
                voltage: reading_view(*voltage),
            },
            TimerPacketInner::Add { firmware_name } => TimerPacketInnerView::Add {
                firmware_name: firmware_name@,
            },
            TimerPacketInner::EpochTime { current_epoch } => TimerPacketInnerView::EpochTime {
                current_epoch: *current_epoch,
            },
        }
    }
}

impl TimerPacketInner {
    /// A copy with the same contents.
    pub fn duplicate(&self) -> (copy: TimerPacketInner)
        ensures
            copy@ == self@,
    {
        match self {
            TimerPacketInner::StartUpdate {
                target_version,
                image_size,
                checksum,
                target_firmware_name,
            } => TimerPacketInner::StartUpdate {
                target_version: target_version.clone(),
                image_size: *image_size,
                checksum: *checksum,
                target_firmware_name: target_firmware_name.clone(),
            },
            TimerPacketInner::ApiError(e) => TimerPacketInner::ApiError(e.duplicate()),
            TimerPacketInner::CardInfoRequest {
                card_id,
                attendance_device,
            } => TimerPacketInner::CardInfoRequest {
                card_id: *card_id,
                attendance_device: *attendance_device,
            },
            TimerPacketInner::CardInfoResponse(c) => TimerPacketInner::CardInfoResponse(
                c.duplicate(),
            ),
            TimerPacketInner::AttendanceMarked => TimerPacketInner::AttendanceMarked,
            TimerPacketInner::DeviceSettings { registered } => TimerPacketInner::DeviceSettings {
                registered: *registered,
            },
            TimerPacketInner::Logs { lines } => TimerPacketInner::Logs {
                lines: duplicate_lines(lines),
            },
            TimerPacketInner::Battery { level, voltage } => TimerPacketInner::Battery {
                level: duplicate_reading(level),
                voltage: duplicate_reading(voltage),
            },
            TimerPacketInner::Add { firmware_name } => TimerPacketInner::Add {
                firmware_name: firmware_name.clone(),
            },
            TimerPacketInner::EpochTime { current_epoch } => TimerPacketInner::EpochTime {
                current_epoch: *current_epoch,
            },
        }
    }
}

/// A message with the tag that ties a reply to its request.
#[derive(Debug, Clone, PartialEq, Eq)]
pub struct TimerPacket {
    /// Present only on requests and on the replies to them.
    pub tag: Option<u64>,
    pub data: TimerPacketInner,
}

pub struct TimerPacketView {
    pub tag: Option<u64>,
    pub data: TimerPacketInnerView,
}

impl View for TimerPacket {
    type V = TimerPacketView;

    open spec fn view(&self) -> TimerPacketView {
        TimerPacketView { tag: self.tag, data: self.data@ }
    }
}

impl DeepView for TimerPacket {
    type V = TimerPacketView;

    open spec fn deep_view(&self) -> TimerPacketView {
        self@
    }
}

impl TimerPacket {
    /// A copy with the same contents.
    pub fn duplicate(&self) -> (copy: TimerPacket)
        ensures
            copy@ == self@,
    {
        TimerPacket { tag: self.tag, data: self.data.duplicate() }
    }
}

/// The message of the error that stands for a reply of the wrong kind.
pub open spec fn wrong_response_message() -> Seq<char> {
    "Wrong response type!"@
}

/// The error that stands for a reply of the wrong kind.
pub fn wrong_response() -> (error: ApiError)
    ensures
        error@ == (ApiErrorView { message: wrong_response_message(), should_reset_time: false }),
{
    ApiError { message: "Wrong response type!".to_owned(), should_reset_time: false }
}

/// A reply that a request can end in. The terminal takes the reply shape
/// that its build expects, hands a reported failure on, and turns any other
/// message into an error of its own.
pub trait FromPacket: View + Sized {
    /// What a packet is read as.
    spec fn reply(packet: TimerPacketView) -> Result<Self::V, ApiErrorView>;

    /// Reads a packet as this reply. A failure that the server reported is
    /// handed on as it is, whatever the reply shape.
    fn from_packet(packet: TimerPacket) -> (reply: Result<Self, ApiError>)
        ensures
            match reply {
                Ok(r) => Self::reply(packet@) == Ok::<Self::V, ApiErrorView>(r@),
                Err(e) => Self::reply(packet@) == Err::<Self::V, ApiErrorView>(e@),
            },
            match packet@.data {
                TimerPacketInnerView::ApiError(error) => match reply {
                    Ok(_) => false,
                    Err(e) => e@ == error,
                },
                _ => true,
            },
    ;
}

impl FromPacket for CardInfoResponsePacket {
    open spec fn reply(packet: TimerPacketView) -> Result<CardInfoResponseView, ApiErrorView> {
        match packet.data {
            TimerPacketInnerView::CardInfoResponse(info) => Ok(info),
            TimerPacketInnerView::ApiError(error) => Err(error),
            _ => Err(
                ApiErrorView { message: wrong_response_message(), should_reset_time: false },
            ),
        }
    }

    fn from_packet(packet: TimerPacket) -> (reply: Result<Self, ApiError>) {
        match packet.data {
            TimerPacketInner::CardInfoResponse(info) => Ok(info),
            TimerPacketInner::ApiError(error) => Err(error),
            _ => Err(wrong_response()),
        }
    }
}

impl FromPacket for AttendanceMarkedPacket {
    open spec fn reply(packet: TimerPacketView) -> Result<AttendanceMarkedPacket, ApiErrorView> {
        match packet.data {
            TimerPacketInnerView::AttendanceMarked => Ok(AttendanceMarkedPacket {  }),
            TimerPacketInnerView::ApiError(error) => Err(error),
            _ => Err(
                ApiErrorView { message: wrong_response_message(), should_reset_time: false },
            ),
        }
    }

    fn from_packet(packet: TimerPacket) -> (reply: Result<Self, ApiError>) {
        match packet.data {
            TimerPacketInner::AttendanceMarked => Ok(AttendanceMarkedPacket {  }),
            TimerPacketInner::ApiError(error) => Err(error),
            _ => Err(wrong_response()),
        }
    }
}

/// Whether two lists of lines hold the same lines in the same order.
pub fn same_lines(a: &Vec<String>, b: &Vec<String>) -> (same: bool)
    ensures
        same == (a.deep_view() == b.deep_view()),
{
    if a.len() != b.len() {
        assert(a.deep_view().len() != b.deep_view().len());
        return false;
    }
    let mut i: usize = 0;
    while i < a.len()
        invariant
            i <= a.len(),
            a.len() == b.len(),
            forall|k: int| 0 <= k < i ==> a@[k]@ == b@[k]@,
        decreases a.len() - i,
    {
        if a[i] != b[i] {
            assert(a.deep_view()[i as int] != b.deep_view()[i as int]);
            return false;
        }
        i += 1;
    }
    assert(a.deep_view() =~= b.deep_view());
    true
}

/// Whether two optional readings are the same.
pub fn same_reading(a: &Option<Reading>, b: &Option<Reading>) -> (same: bool)
    ensures
        same == (reading_view(*a) == reading_view(*b)),
{
    match (a, b) {
        (None, None) => true,
        (Some(Reading::UInt(x)), Some(Reading::UInt(y))) => *x == *y,
        (Some(Reading::NegInt(x)), Some(Reading::NegInt(y))) => *x == *y,
        (Some(Reading::Decimal(x)), Some(Reading::Decimal(y))) => *x == *y,
        _ => false,
    }
}

fn same_flag(a: Option<bool>, b: Option<bool>) -> (same: bool)
    ensures
        same == (a == b),
{
    match (a, b) {
        (None, None) => true,
        (Some(x), Some(y)) => x == y,
        _ => false,
    }
}

fn same_tag(a: Option<u64>, b: Option<u64>) -> (same: bool)
    ensures
        same == (a == b),
{
    match (a, b) {
        (None, None) => true,
        (Some(x), Some(y)) => x == y,
        _ => false,
    }
}

impl TimerPacketInner {
    /// Whether two messages are the same message with the same contents.
    pub fn same(&self, other: &TimerPacketInner) -> (same: bool)
        ensures
            same == (self@ == other@),
    {
        match (self, other) {
            (
                TimerPacketInner::StartUpdate {
                    target_version: version_a,
                    image_size: size_a,
                    checksum: checksum_a,
                    target_firmware_name: name_a,
                },
                TimerPacketInner::StartUpdate {
                    target_version: version_b,
                    image_size: size_b,
                    checksum: checksum_b,
                    target_firmware_name: name_b,
                },
            ) => *version_a == *version_b && *size_a == *size_b && *checksum_a == *checksum_b
                && *name_a == *name_b,
            (TimerPacketInner::ApiError(a), TimerPacketInner::ApiError(b)) => a.message
                == b.message && a.should_reset_time == b.should_reset_time,
            (
                TimerPacketInner::CardInfoRequest { card_id: card_a, attendance_device: flag_a },
                TimerPacketInner::CardInfoRequest { card_id: card_b, attendance_device: flag_b },
            ) => *card_a == *card_b && same_flag(*flag_a, *flag_b),
            (TimerPacketInner::CardInfoResponse(a), TimerPacketInner::CardInfoResponse(b)) => {
                a.card_id == b.card_id && a.display_name == b.display_name && a.country_code
                    == b.country_code && a.eligible == b.eligible
            },
            (TimerPacketInner::AttendanceMarked, TimerPacketInner::AttendanceMarked) => true,
            (
                TimerPacketInner::DeviceSettings { registered: a },
                TimerPacketInner::DeviceSettings { registered: b },
            ) => *a == *b,
            (TimerPacketInner::Logs { lines: a }, TimerPacketInner::Logs { lines: b }) => {
                same_lines(a, b)
            },
            (
                TimerPacketInner::Battery { level: level_a, voltage: voltage_a },
                TimerPacketInner::Battery { level: level_b, voltage: voltage_b },
            ) => same_reading(level_a, level_b) && same_reading(voltage_a, voltage_b),
            (
                TimerPacketInner::Add { firmware_name: a },
                TimerPacketInner::Add { firmware_name: b },
            ) => *a == *b,
            (
                TimerPacketInner::EpochTime { current_epoch: a },
                TimerPacketInner::EpochTime { current_epoch: b },
            ) => *a == *b,
            _ => false,
        }
    }
}

impl TimerPacket {
    /// Whether two packets carry the same tag and the same message.
    pub fn same(&self, other: &TimerPacket) -> (same: bool)
        ensures
            same == (self@ == other@),
    {
        same_tag(self.tag, other.tag) && self.data.same(&other.data)
    }
}

} // verus!
