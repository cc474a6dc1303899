use staffat_firmware::locator::{
    load_settings, locate, url_source, LocateRetry, ServerLocator, UrlSource,
};
use staffat_firmware::structs::ConnSettings;

#[test]
fn an_address_is_taken_apart() {
    assert_eq!(
        locate("wss://timer.example.org/ws?room=1", 0),
        Ok(ServerLocator {
            host: String::from("timer.example.org"),
            hostname: String::from("timer.example.org"),
            port: 443,
            path: String::from("/ws?room=1"),
            secure: true,
        })
    );
    assert_eq!(
        locate("ws://192.168.1.10:8080", 2),
        Ok(ServerLocator {
            host: String::from("192.168.1.10:8080"),
            hostname: String::from("192.168.1.10"),
            port: 8080,
            path: String::from("/"),
            secure: false,
        })
    );
}

#[test]
fn a_malformed_address_is_counted_until_the_configuration_is_given_up() {
    assert_eq!(locate("http://timer.local", 0), Err((1, LocateRetry::RetryAfter(1000))));
    assert_eq!(locate("", 1), Err((2, LocateRetry::RetryAfter(1000))));
    assert_eq!(locate("ws://", 2), Err((3, LocateRetry::RetryAfter(1000))));
    assert_eq!(locate("ws://h:99999", 3), Err((4, LocateRetry::ResetConfiguration)));
    assert_eq!(locate("x", u32::MAX), Err((u32::MAX, LocateRetry::ResetConfiguration)));
}

#[test]
fn the_configured_address_is_used_only_where_nothing_speaks_against_it() {
    let configured = ConnSettings { mdns: false, ws_url: Some(String::from("ws://10.0.0.1")) };
    assert_eq!(url_source(&configured, 0), UrlSource::Configured);
    assert_eq!(url_source(&configured, 1), UrlSource::Lookup);
    let lookup = ConnSettings { mdns: true, ..configured.clone() };
    assert_eq!(url_source(&lookup, 0), UrlSource::Lookup);
    let empty = ConnSettings { mdns: false, ws_url: None };
    assert_eq!(url_source(&empty, 0), UrlSource::Lookup);
    assert_eq!(url_source(&ConnSettings::default(), 0), UrlSource::Lookup);
}

#[test]
fn settings_without_data_are_the_defaults() {
    let defaults = ConnSettings { mdns: true, ws_url: None };
    assert_eq!(ConnSettings::default(), defaults);
    assert_eq!(load_settings(None), defaults);
    assert_eq!(load_settings(Some("")), defaults);
    assert_eq!(load_settings(Some("[]")), defaults);
    assert_eq!(load_settings(Some("{\"ws_url\":\"ws://a\"}")), defaults);
    assert_eq!(load_settings(Some("{\"mdns\":0}")), defaults);
    assert_eq!(load_settings(Some("{\"mdns\":false,\"ws_url\":5}")), defaults);
}

#[test]
fn stored_settings_are_read_from_json() {
    assert_eq!(
        load_settings(Some("{\"mdns\":false,\"ws_url\":\"ws://10.0.0.1:80/x\"}")),
        ConnSettings { mdns: false, ws_url: Some(String::from("ws://10.0.0.1:80/x")) }
    );
    assert_eq!(
        load_settings(Some("{\"mdns\":false,\"ws_url\":null,\"ssid\":\"x\"}")),
        ConnSettings { mdns: false, ws_url: None }
    );
    assert_eq!(load_settings(Some("{\"mdns\":true}")), ConnSettings { mdns: true, ws_url: None });
}
