//! Where the server is: the locator that the connection manager works
//! from, and the start-up steps that lead to one.

use crate::json::{Json, JsonDoc, get_member, json_parse, lemma_object_view, member, parse_json};
use crate::structs::ConnSettings;
use vstd::prelude::*;

verus! {

/// The parts of a server address.
#[derive(Debug, Clone, PartialEq, Eq)]
pub struct ServerLocator {
    /// The host as it was written, with the port if one was given.
    pub host: String,
    /// The host name or address alone.
    pub hostname: String,
    /// The port that was given, or the one that the scheme implies.
    pub port: u16,
    /// The path with its query.
    pub path: String,
    /// Whether the scheme asks for transport security.
    pub secure: bool,
}

pub struct ServerLocatorView {
    pub host: Seq<char>,
    pub hostname: Seq<char>,
    pub port: u16,
    pub path: Seq<char>,
    pub secure: bool,
}

impl View for ServerLocator {
    type V = ServerLocatorView;

    open spec fn view(&self) -> ServerLocatorView {
        ServerLocatorView {
            host: self.host@,
            hostname: self.hostname@,
            port: self.port,
            path: self.path@,
            secure: self.secure,
        }
    }
}

/// What `ws_framer::WsUrl::parse` makes of an address: its parts, or `None`
/// where the address is malformed.
pub uninterp spec fn ws_url_parse(url: Seq<char>) -> Option<ServerLocatorView>;

/// What the standard parser of dotted IPv4 addresses makes of a text: the
/// four bytes of the address, or `None` where the text is no such address.
pub uninterp spec fn ipv4_parse(text: Seq<char>) -> Option<Seq<u8>>;

/// Calls `ws_framer::WsUrl::parse` and copies the parts of the address. The
/// contract only names the outcome.
#[verifier::external_body]
fn locator_from_url(url: &str) -> (locator: Option<ServerLocator>)
    ensures
        ws_url_parse(url@) == (match locator {
            Some(l) => Some(l@),
            None => None,
        }),
{
    ws_framer::WsUrl::parse(url).map(
        |parts|
            ServerLocator {
                host: parts.host.to_owned(),
                hostname: parts.hostname.to_owned(),
                port: parts.port,
                path: parts.path.to_owned(),
                secure: parts.secure,
            },
    )
}

/// Calls `str::parse` for a `core::net::Ipv4Addr` and takes the bytes of
/// the address. The contract only names the outcome.
#[verifier::external_body]
pub(crate) fn ipv4_from_text(text: &str) -> (address: Option<[u8; 4]>)
    ensures
        ipv4_parse(text@) == (match address {
            Some(a) => Some(a@),
            None => None,
        }),
{
    text.parse::<core::net::Ipv4Addr>().ok().map(|address| address.octets())
}

/// Where the address of the server comes from.
#[derive(Debug, Clone, Copy, PartialEq, Eq, Structural)]
pub enum UrlSource {
    /// Look the server up on the local network.
    Lookup,
    /// Take the address from the settings.
    Configured,
}

/// What follows an address that could not be taken apart.
#[derive(Debug, Clone, Copy, PartialEq, Eq, Structural)]
pub enum LocateRetry {
    /// Wait this many milliseconds and try again.
    RetryAfter(u64),
    /// Give the stored network configuration up and restart.
    ResetConfiguration,
}

/// How long to wait before the address is looked for again.
pub const LOCATE_RETRY_MS: u64 = 1000;

/// How many times an address may be malformed before the configuration is
/// given up.
pub const LOCATE_ATTEMPTS: u32 = 3;

/// Chooses where to take the server's address from: from the settings only
/// where they hold one, do not ask for a lookup, and no attempt has failed.
pub fn url_source(settings: &ConnSettings, failed_attempts: u32) -> (source: UrlSource)
    ensures
        source == (if settings.mdns || settings.ws_url is None || failed_attempts > 0 {
            UrlSource::Lookup
        } else {
            UrlSource::Configured
        }),
{
    if settings.mdns || settings.ws_url.is_none() || failed_attempts > 0 {
        UrlSource::Lookup
    } else {
        UrlSource::Configured
    }
}

/// The count of failures after one more, and what follows it: another
/// attempt after a second, or, after more than three failures, the end of
/// the stored configuration.
pub open spec fn after_failure(failed_attempts: u32) -> (u32, LocateRetry) {
    let count = if failed_attempts < u32::MAX {
        (failed_attempts + 1) as u32
    } else {
        failed_attempts
    };
    if count > LOCATE_ATTEMPTS {
        (count, LocateRetry::ResetConfiguration)
    } else {
        (count, LocateRetry::RetryAfter(LOCATE_RETRY_MS))
    }
}

/// Takes a server address apart. A malformed address is counted, and the
/// count says what follows.
pub fn locate(url: &str, failed_attempts: u32) -> (outcome: Result<
    ServerLocator,
    (u32, LocateRetry),
>)
    ensures
        match outcome {
            Ok(locator) => ws_url_parse(url@) == Some(locator@),
            Err(next) => ws_url_parse(url@) is None && next == after_failure(failed_attempts),
        },
{
    match locator_from_url(url) {
        Some(locator) => Ok(locator),
        None => {
            let count = failed_attempts.saturating_add(1);
            if count > LOCATE_ATTEMPTS {
                Err((count, LocateRetry::ResetConfiguration))
            } else {
                Err((count, LocateRetry::RetryAfter(LOCATE_RETRY_MS)))
            }
        },
    }
}

pub struct ConnSettingsView {
    pub mdns: bool,
    pub ws_url: Option<Seq<char>>,
}

/// The settings as plain values.
pub open spec fn settings_view(settings: ConnSettings) -> ConnSettingsView {
    ConnSettingsView {
        mdns: settings.mdns,
        ws_url: match settings.ws_url {
            Some(url) => Some(url@),
            None => None,
        },
    }
}

/// The settings without stored data.
pub open spec fn default_settings() -> ConnSettingsView {
    ConnSettingsView { mdns: true, ws_url: None }
}

/// Reads settings from a document: an object with a truth value `mdns` and
/// an optional string `ws_url`.
pub open spec fn doc_settings(doc: JsonDoc) -> Option<ConnSettingsView> {
    match doc {
        JsonDoc::Object(members) => match member(members, "mdns"@) {
            Some(JsonDoc::Bool(mdns)) => match member(members, "ws_url"@) {
                None => Some(ConnSettingsView { mdns, ws_url: None }),
                Some(JsonDoc::Null) => Some(ConnSettingsView { mdns, ws_url: None }),
                Some(JsonDoc::Str(url)) => Some(ConnSettingsView { mdns, ws_url: Some(url) }),
                _ => None,
            },
            _ => None,
        },
        _ => None,
    }
}

/// The settings that stored data stands for: what the data reads as, and
/// the defaults where there is no data or it does not read as settings.
pub open spec fn stored_settings(data: Option<Seq<char>>) -> ConnSettingsView {
    match data {
        None => default_settings(),
        Some(text) => match json_parse(text) {
            None => default_settings(),
            Some(doc) => match doc_settings(doc) {
                Some(settings) => settings,
                None => default_settings(),
            },
        },
    }
}

fn settings_from_json(json: &Json) -> (settings: Option<ConnSettings>)
    ensures
        match settings {
            Some(s) => doc_settings(json@) == Some(settings_view(s)),
            None => doc_settings(json@) is None,
        },
{
    match json {
        Json::Object(members) => {
            proof {
                lemma_object_view(*members);
            }
            match get_member(members, "mdns") {
                Some(Json::Bool(mdns)) => match get_member(members, "ws_url") {
                    None => Some(ConnSettings { mdns: *mdns, ws_url: None }),
                    Some(Json::Null) => Some(ConnSettings { mdns: *mdns, ws_url: None }),
                    Some(Json::Str(url)) => Some(
                        ConnSettings { mdns: *mdns, ws_url: Some(url.clone()) },
                    ),
                    _ => None,
                },
                _ => None,
            }
        },
        _ => None,
    }
}

/// Reads the connection settings from the data that provisioning stored, as
/// JSON text.
pub fn load_settings(data: Option<&str>) -> (settings: ConnSettings)
    ensures
        settings_view(settings) == stored_settings(
            match data {
                Some(text) => Some(text@),
                None => None,
            },
        ),
{
    match data {
        None => ConnSettings::default(),
        Some(text) => match parse_json(text) {
            None => ConnSettings::default(),
            Some(json) => match settings_from_json(&json) {
                Some(settings) => settings,
                None => ConnSettings::default(),
            },
        },
    }
}

} // verus!
