//! The decisions of the tasks around the session: when the device goes to
//! sleep, what a scanned card leads to, and when logs are shipped.

use crate::state::{DeviceFlags, SignaledGlobalStateInner};
use crate::structs::{TimerPacket, TimerPacketInner, TimerPacketInnerView, TimerPacketView};
use vstd::prelude::*;

verus! {

/// After how much time without a card the device goes to sleep, and after
/// how much it goes into its deeper sleep, in milliseconds.
#[derive(Debug, Clone, Copy, PartialEq, Eq)]
pub struct SleepPolicy {
    pub sleep_after_ms: u64,
    pub deeper_sleep_after_ms: u64,
}

/// The number of pulses, and the length of each in milliseconds, that
/// acknowledge a card.
pub const CARD_PULSES: u32 = 2;

/// The length of a pulse that acknowledges a card, in milliseconds.
pub const CARD_PULSE_MS: u64 = 100;

/// How long the device waits before the restart that ends its deeper
/// sleep, in milliseconds.
pub const WAKE_RESTART_DELAY_MS: u64 = 100;

/// How often the device shows that it is in its deeper sleep, in
/// milliseconds.
pub const DEEPER_SLEEP_BLINK_MS: u64 = 5000;

/// The time since the last card, in milliseconds; none where the clock
/// reads earlier than the last card.
pub open spec fn idle_ms(last_scan_ms: u64, now_ms: u64) -> u64 {
    if now_ms >= last_scan_ms {
        (now_ms - last_scan_ms) as u64
    } else {
        0
    }
}

/// What the passing of time did to the sleep levels.
#[derive(Debug, Clone, Copy, PartialEq, Eq)]
pub struct IdleStep {
    /// The device has just gone to sleep.
    pub entered_sleep: bool,
    /// The device has just gone into its deeper sleep.
    pub entered_deeper_sleep: bool,
}

/// The flags after a look at the clock. A device that has seen no card for
/// long enough goes to sleep, and later into its deeper sleep; during a
/// firmware update it does neither.
pub open spec fn idle_flags(
    flags: DeviceFlags,
    last_scan_ms: u64,
    now_ms: u64,
    policy: SleepPolicy,
) -> DeviceFlags {
    if flags.ota {
        flags
    } else {
        DeviceFlags {
            sleep: flags.sleep || idle_ms(last_scan_ms, now_ms) >= policy.sleep_after_ms,
            deeper_sleep: flags.deeper_sleep || idle_ms(last_scan_ms, now_ms)
                >= policy.deeper_sleep_after_ms,
            ..flags
        }
    }
}

/// Looks at the clock and raises the sleep levels that are due.
pub fn idle_tick(flags: &mut DeviceFlags, last_scan_ms: u64, now_ms: u64, policy: &SleepPolicy) -> (step:
    IdleStep)
    ensures
        *final(flags) == idle_flags(*old(flags), last_scan_ms, now_ms, *policy),
        step.entered_sleep == (final(flags).sleep && !old(flags).sleep),
        step.entered_deeper_sleep == (final(flags).deeper_sleep && !old(flags).deeper_sleep),
{
    let mut step = IdleStep { entered_sleep: false, entered_deeper_sleep: false };
    if flags.ota {
        return step;
    }
    let idle = if now_ms >= last_scan_ms {
        now_ms - last_scan_ms
    } else {
        0
    };
    if idle >= policy.sleep_after_ms && !flags.sleep {
        flags.sleep = true;
        step.entered_sleep = true;
    }
    if idle >= policy.deeper_sleep_after_ms && !flags.deeper_sleep {
        flags.deeper_sleep = true;
        step.entered_deeper_sleep = true;
    }
    step
}

/// What a scanned card leads to.
#[derive(Debug, Clone, Copy, PartialEq, Eq)]
pub enum ScanStep {
    /// The device was in its deeper sleep: keep the card, wait, and
    /// restart; the card is reported after the restart.
    StoreAndRestart { card: u128, delay_ms: u64 },
    /// Ask the server about the card.
    Request { card_id: u64 },
}

/// The number that a card goes to the server under: the low 64 bits of its
/// identifier.
pub open spec fn card_number(card: u128) -> u64 {
    (card % 0x1_0000_0000_0000_0000) as u64
}

/// Takes note of a scanned card: the device wakes from sleep, the time
/// without a card starts again, and the card is either reported now or, in
/// the deeper sleep, kept for after the restart.
pub fn card_scanned(flags: &mut DeviceFlags, last_scan_ms: &mut u64, now_ms: u64, card: u128) -> (step:
    ScanStep)
    ensures
        *final(last_scan_ms) == now_ms,
        *final(flags) == (DeviceFlags { sleep: false, ..*old(flags) }),
        step == (if old(flags).deeper_sleep {
            ScanStep::StoreAndRestart { card, delay_ms: WAKE_RESTART_DELAY_MS }
        } else {
            ScanStep::Request { card_id: card_number(card) }
        }),
{
    *last_scan_ms = now_ms;
    flags.sleep = false;
    if flags.deeper_sleep {
        ScanStep::StoreAndRestart { card, delay_ms: WAKE_RESTART_DELAY_MS }
    } else {
        ScanStep::Request { card_id: low_bits(card) }
    }
}

fn low_bits(card: u128) -> (number: u64)
    ensures
        number == card_number(card),
{
    let low: u128 = card & 0xffff_ffff_ffff_ffff;
    assert(low == card % 0x1_0000_0000_0000_0000) by (bit_vector)
        requires
            low == card & 0xffff_ffff_ffff_ffff,
    ;
    low as u64
}

/// The request that reports a card for attendance.
pub fn card_request(card_id: u64) -> (request: TimerPacketInner)
    ensures
        request@ == (TimerPacketInnerView::CardInfoRequest {
            card_id,
            attendance_device: Some(true),
        }),
{
    TimerPacketInner::CardInfoRequest { card_id, attendance_device: Some(true) }
}

/// The lines of a batch in the order in which they are shipped: the last
/// one first.
pub fn reversed(lines: Vec<String>) -> (turned: Vec<String>)
    ensures
        turned.deep_view() == lines.deep_view().reverse(),
{
    let mut rest = lines;
    let mut turned: Vec<String> = Vec::new();
    while rest.len() > 0
        invariant
            rest.len() + turned.len() == lines.len(),
            forall|k: int| 0 <= k < rest.len() ==> rest@[k]@ == lines@[k]@,
            forall|k: int|
                0 <= k < turned.len() ==> turned@[k]@ == lines@[lines.len() - 1 - k]@,
        decreases rest.len(),
    {
        let line = rest.pop().unwrap();
        turned.push(line);
    }
    turned
}

/// Decides on a batch of log lines: there is nothing to ship while the
/// device sleeps or takes in a firmware image, nor where the batch is
/// empty. Otherwise the batch goes out as one untagged packet, last line
/// first.
pub fn log_shipment(flags: &DeviceFlags, lines: Vec<String>) -> (packet: Option<TimerPacket>)
    ensures
        match packet {
            Some(p) => !flags.ota && !flags.sleep && lines.len() > 0 && p@ == (TimerPacketView {
                tag: None,
                data: TimerPacketInnerView::Logs { lines: lines.deep_view().reverse() },
            }),
            None => flags.ota || flags.sleep || lines.len() == 0,
        },
{
    if flags.ota || flags.sleep || lines.len() == 0 {
        return None;
    }
    Some(TimerPacket { tag: None, data: TimerPacketInner::Logs { lines: reversed(lines) } })
}

/// Whether a report is due, for a task that reports every `interval_ms`,
/// and the time of the last report from now on. The report is made only
/// while the server is connected, but the time counts either way.
pub fn report_due(
    shared: &SignaledGlobalStateInner,
    last_report_ms: u64,
    now_ms: u64,
    interval_ms: u64,
) -> (due: (bool, u64))
    ensures
        due == (if idle_ms(last_report_ms, now_ms) >= interval_ms {
            (shared.server_connected == Some(true), now_ms)
        } else {
            (false, last_report_ms)
        }),
{
    let since = if now_ms >= last_report_ms {
        now_ms - last_report_ms
    } else {
        0
    };
    if since >= interval_ms {
        let connected = match shared.server_connected {
            Some(true) => true,
            _ => false,
        };
        (connected, now_ms)
    } else {
        (false, last_report_ms)
    }
}

/// Whether the sleep level has changed since it was last passed on. The
/// new level, where it has: it goes to the connection manager, and the
/// radio is stopped for `true` and started again for `false`.
pub fn sleep_changed(flags: &DeviceFlags, last_passed_on: bool) -> (change: Option<bool>)
    ensures
        change == (if flags.sleep != last_passed_on {
            Some(flags.sleep)
        } else {
            None
        }),
{
    if flags.sleep != last_passed_on {
        Some(flags.sleep)
    } else {
        None
    }
}

/// Whether the device is to show that it is in its deeper sleep: every
/// five seconds while it is.
pub fn deeper_sleep_blink_due(flags: &DeviceFlags, last_blink_ms: u64, now_ms: u64) -> (due: bool)
    ensures
        due == (flags.deeper_sleep && idle_ms(last_blink_ms, now_ms) >= DEEPER_SLEEP_BLINK_MS),
{
    let since = if now_ms >= last_blink_ms {
        now_ms - last_blink_ms
    } else {
        0
    };
    flags.deeper_sleep && since >= DEEPER_SLEEP_BLINK_MS
}

} // verus!
