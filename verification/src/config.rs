//! Compile-time configuration of the monitor.

use vstd::prelude::*;

verus! {

/// Cadence of the detection cycle, in milliseconds.
pub const PROCESS_CHECK_INTERVAL_MS: u64 = 3000;

/// Minimum elapsed time since the last start transition before a new start
/// may fire, in milliseconds.
pub const START_COOLDOWN_MS: i64 = 5000;

/// Minimum elapsed time since the last stop transition before a new stop
/// may fire, in milliseconds.
pub const STOP_COOLDOWN_MS: i64 = 3000;

/// Capacity of the rolling log ring; the oldest entry is evicted first.
pub const LOG_CAPACITY: usize = 50;

/// Application id under which the presence service knows this monitor.
pub fn client_id() -> (r: &'static str)
    ensures
        r@ == "1164946062499389470"@,
{
    "1164946062499389470"
}

/// Details text of the presence payload.
pub fn activity_details() -> (r: &'static str)
    ensures
        r@ == "Playing MotorStorm®: Pacific Rift"@,
{
    "Playing MotorStorm®: Pacific Rift"
}

/// State text of the presence payload.
pub fn activity_state() -> (r: &'static str)
    ensures
        r@ == "On RPCS3 Emulator"@,
{
    "On RPCS3 Emulator"
}

/// Key of the large image asset of the presence payload.
pub fn asset_large_image() -> (r: &'static str)
    ensures
        r@ == "motorstorm"@,
{
    "motorstorm"
}

/// Hover text of the large image asset: the game's display name.
pub fn asset_large_text() -> (r: &'static str)
    ensures
        r@ == "MotorStorm®: Pacific Rift"@,
{
    "MotorStorm®: Pacific Rift"
}

/// Key of the small image asset of the presence payload.
pub fn asset_small_image() -> (r: &'static str)
    ensures
        r@ == "rpcs3"@,
{
    "rpcs3"
}

/// Hover text of the small image asset.
pub fn asset_small_text() -> (r: &'static str)
    ensures
        r@ == "RPCS3 Emulator"@,
{
    "RPCS3 Emulator"
}

} // verus!
