use staffat_firmware::policy::{
    card_request, card_scanned, deeper_sleep_blink_due, idle_tick, log_shipment, report_due,
    reversed, sleep_changed, IdleStep, ScanStep, SleepPolicy,
};
use staffat_firmware::state::{
    current_epoch, deeper_sleep_state, ota_state, sleep_state, DeviceFlags,
    SignaledGlobalStateInner,
};
use staffat_firmware::structs::{TimerPacket, TimerPacketInner};

const POLICY: SleepPolicy = SleepPolicy { sleep_after_ms: 60_000, deeper_sleep_after_ms: 600_000 };

#[test]
fn the_device_sleeps_after_a_while_without_a_card() {
    let mut flags = DeviceFlags::new();
    let quiet = IdleStep { entered_sleep: false, entered_deeper_sleep: false };
    assert_eq!(idle_tick(&mut flags, 1000, 60_999, &POLICY), quiet);
    assert!(!sleep_state(&flags));
    assert_eq!(
        idle_tick(&mut flags, 1000, 61_000, &POLICY),
        IdleStep { entered_sleep: true, entered_deeper_sleep: false }
    );
    assert!(sleep_state(&flags));
    assert_eq!(idle_tick(&mut flags, 1000, 61_010, &POLICY), quiet);
    assert_eq!(
        idle_tick(&mut flags, 1000, 601_000, &POLICY),
        IdleStep { entered_sleep: false, entered_deeper_sleep: true }
    );
    assert!(deeper_sleep_state(&flags));
    assert_eq!(idle_tick(&mut flags, 1000, 900_000, &POLICY), quiet);
}

#[test]
fn a_clock_that_reads_early_counts_as_no_time_passed() {
    let mut flags = DeviceFlags::new();
    idle_tick(&mut flags, 5000, 10, &POLICY);
    assert_eq!(flags, DeviceFlags::new());
}

#[test]
fn an_update_keeps_the_device_awake() {
    let mut flags = DeviceFlags::new();
    flags.ota = true;
    assert!(ota_state(&flags));
    idle_tick(&mut flags, 0, 10_000_000, &POLICY);
    assert!(!flags.sleep && !flags.deeper_sleep);
}

#[test]
fn a_card_wakes_the_device_and_is_reported() {
    let mut flags = DeviceFlags::new();
    flags.sleep = true;
    let mut last_scan = 0;
    assert_eq!(
        card_scanned(&mut flags, &mut last_scan, 777, 0xaabb_ccdd),
        ScanStep::Request { card_id: 0xaabb_ccdd }
    );
    assert_eq!(last_scan, 777);
    assert!(!flags.sleep);
    assert_eq!(
        card_request(0xaabb_ccdd),
        TimerPacketInner::CardInfoRequest { card_id: 0xaabb_ccdd, attendance_device: Some(true) }
    );
}

#[test]
fn a_long_card_number_is_cut_to_its_low_bits() {
    let mut flags = DeviceFlags::new();
    let mut last_scan = 0;
    let card = (7u128 << 64) | 0x0123_4567_89ab_cdef;
    assert_eq!(
        card_scanned(&mut flags, &mut last_scan, 1, card),
        ScanStep::Request { card_id: 0x0123_4567_89ab_cdef }
    );
}

#[test]
fn a_card_in_the_deeper_sleep_is_kept_for_after_the_restart() {
    let mut flags = DeviceFlags::new();
    flags.sleep = true;
    flags.deeper_sleep = true;
    let mut last_scan = 0;
    assert_eq!(
        card_scanned(&mut flags, &mut last_scan, 9, 42),
        ScanStep::StoreAndRestart { card: 42, delay_ms: 100 }
    );
    assert!(flags.deeper_sleep && !flags.sleep);
}

#[test]
fn logs_are_shipped_last_line_first() {
    let flags = DeviceFlags::new();
    let lines = vec![String::from("one"), String::from("two"), String::from("three")];
    assert_eq!(
        log_shipment(&flags, lines.clone()),
        Some(TimerPacket {
            tag: None,
            data: TimerPacketInner::Logs {
                lines: vec![String::from("three"), String::from("two"), String::from("one")],
            },
        })
    );
    assert_eq!(reversed(Vec::new()), Vec::<String>::new());
    assert_eq!(reversed(vec![String::from("a")]), vec![String::from("a")]);
}

#[test]
fn logs_are_held_back_during_sleep_and_updates() {
    let lines = vec![String::from("one")];
    let mut flags = DeviceFlags::new();
    assert_eq!(log_shipment(&flags, Vec::new()), None);
    flags.sleep = true;
    assert_eq!(log_shipment(&flags, lines.clone()), None);
    flags.sleep = false;
    flags.ota = true;
    assert_eq!(log_shipment(&flags, lines.clone()), None);
    flags.ota = false;
    flags.deeper_sleep = true;
    assert!(log_shipment(&flags, lines).is_some());
}

#[test]
fn a_report_is_made_only_while_connected_but_the_interval_counts_either_way() {
    let mut shared = SignaledGlobalStateInner::new();
    assert_eq!(report_due(&shared, 100, 1099, 1000), (false, 100));
    assert_eq!(report_due(&shared, 100, 1100, 1000), (false, 1100));
    shared.server_connected = Some(false);
    assert_eq!(report_due(&shared, 100, 1100, 1000), (false, 1100));
    shared.server_connected = Some(true);
    assert_eq!(report_due(&shared, 100, 1100, 1000), (true, 1100));
    assert_eq!(report_due(&shared, 100, 50, 1000), (false, 100));
}

#[test]
fn a_change_of_the_sleep_level_is_passed_on_once() {
    let mut flags = DeviceFlags::new();
    assert_eq!(sleep_changed(&flags, false), None);
    flags.sleep = true;
    assert_eq!(sleep_changed(&flags, false), Some(true));
    assert_eq!(sleep_changed(&flags, true), None);
    flags.sleep = false;
    assert_eq!(sleep_changed(&flags, true), Some(false));
}

#[test]
fn the_deeper_sleep_shows_every_five_seconds() {
    let mut flags = DeviceFlags::new();
    assert!(!deeper_sleep_blink_due(&flags, 0, 10_000));
    flags.deeper_sleep = true;
    assert!(!deeper_sleep_blink_due(&flags, 0, 4999));
    assert!(deeper_sleep_blink_due(&flags, 0, 5000));
    assert!(!deeper_sleep_blink_due(&flags, 6000, 5000));
}

#[test]
fn the_clock_counts_from_the_time_that_the_server_told() {
    let mut flags = DeviceFlags::new();
    assert_eq!(current_epoch(&flags, 12), 12);
    flags.set_epoch(1000, 40);
    assert_eq!(current_epoch(&flags, 40), 1000);
    assert_eq!(current_epoch(&flags, 100), 1060);
    flags.set_epoch(5, 40);
    assert_eq!(current_epoch(&flags, 40), 5);
    assert_eq!(current_epoch(&flags, 41), 6);
    assert_eq!(flags.epoch_base, 5u64.wrapping_sub(40));
}

#[test]
fn nothing_is_known_at_power_up() {
    let shared = SignaledGlobalStateInner::new();
    assert_eq!(shared.device_registered, None);
    assert_eq!(shared.server_connected, None);
    assert_eq!(
        DeviceFlags::new(),
        DeviceFlags { epoch_base: 0, sleep: false, deeper_sleep: false, ota: false }
    );
}
