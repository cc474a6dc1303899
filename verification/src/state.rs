//! Device state that every task of the terminal can see.

use vstd::prelude::*;

verus! {

/// The record that the connection manager and the inbound handler keep up to
/// date. Both flags are unknown until the first event that settles them.
#[derive(Debug, Clone, Copy, PartialEq, Eq, Structural)]
pub struct SignaledGlobalStateInner {
    /// Whether the server knows this device; `None` until it has said so.
    pub device_registered: Option<bool>,
    /// Whether the session is open; `None` until the first connection attempt.
    pub server_connected: Option<bool>,
}

impl SignaledGlobalStateInner {
    /// The state at power-up: nothing is known yet.
    pub fn new() -> (state: Self)
        ensures
            state.device_registered is None,
            state.server_connected is None,
    {
        SignaledGlobalStateInner { device_registered: None, server_connected: None }
    }
}

/// The device-wide flags and the base of the wall clock. One record of them
/// is handed to every task.
#[derive(Debug, Clone, Copy, PartialEq, Eq, Structural)]
pub struct DeviceFlags {
    /// What to add to the seconds since power-up to get the seconds since
    /// the epoch.
    pub epoch_base: u64,
    /// The device has been idle for a while and keeps its connection down.
    pub sleep: bool,
    /// The device is near dormant and restarts when it wakes.
    pub deeper_sleep: bool,
    /// A firmware image is being taken in.
    pub ota: bool,
}

impl DeviceFlags {
    /// The flags at power-up: awake, no update, and a clock that has not
    /// been set.
    pub fn new() -> (flags: Self)
        ensures
            flags == (DeviceFlags { epoch_base: 0, sleep: false, deeper_sleep: false, ota: false }),
    {
        DeviceFlags { epoch_base: 0, sleep: false, deeper_sleep: false, ota: false }
    }

    /// Sets the wall clock: from now on the clock shows `current_epoch` plus
    /// the seconds that pass. Counting is modulo 2^64.
    pub fn set_epoch(&mut self, current_epoch: u64, uptime_secs: u64)
        ensures
            *final(self) == (DeviceFlags {
                epoch_base: epoch_base_for(current_epoch, uptime_secs),
                ..*old(self)
            }),
    {
        self.epoch_base = current_epoch.wrapping_sub(uptime_secs);
    }
}

/// The clock base that makes the clock show `current_epoch` when the device
/// has been up for `uptime_secs`.
pub open spec fn epoch_base_for(current_epoch: u64, uptime_secs: u64) -> u64 {
    if current_epoch >= uptime_secs {
        (current_epoch - uptime_secs) as u64
    } else {
        (current_epoch - uptime_secs + 0x1_0000_0000_0000_0000) as u64
    }
}

/// What the clock shows for a base and an uptime.
pub open spec fn epoch_at(epoch_base: u64, uptime_secs: u64) -> u64 {
    if epoch_base + uptime_secs > u64::MAX {
        (epoch_base + uptime_secs - 0x1_0000_0000_0000_0000) as u64
    } else {
        (epoch_base + uptime_secs) as u64
    }
}

/// The seconds since the epoch, for a device that has been up for
/// `uptime_secs`.
pub fn current_epoch(flags: &DeviceFlags, uptime_secs: u64) -> (epoch: u64)
    ensures
        epoch == epoch_at(flags.epoch_base, uptime_secs),
{
    flags.epoch_base.wrapping_add(uptime_secs)
}

/// Whether the device sleeps.
pub fn sleep_state(flags: &DeviceFlags) -> (sleep: bool)
    ensures
        sleep == flags.sleep,
{
    flags.sleep
}

/// Whether the device is in its deeper sleep.
pub fn deeper_sleep_state(flags: &DeviceFlags) -> (deeper_sleep: bool)
    ensures
        deeper_sleep == flags.deeper_sleep,
{
    flags.deeper_sleep
}

/// Whether a firmware update is under way.
pub fn ota_state(flags: &DeviceFlags) -> (ota: bool)
    ensures
        ota == flags.ota,
{
    flags.ota
}

/// Once the clock is set it shows the server's time, and later that time
/// plus the seconds that have passed, as long as the sum fits in 64 bits.
pub proof fn lemma_clock_follows_server(current_epoch: u64, set_at: u64, read_at: u64)
    requires
        set_at <= read_at,
        current_epoch + (read_at - set_at) <= u64::MAX,
    ensures
        epoch_at(epoch_base_for(current_epoch, set_at), read_at) == current_epoch + (read_at
            - set_at),
{
}

} // verus!
