//! Sensor frame decoding and the sampling cadence.
//!
//! The IMU answers a burst read with 14 big-endian bytes: three 16-bit
//! acceleration counts, a temperature word (skipped), and three 16-bit
//! angular-rate counts. Decoding converts counts to milli-g (at the +/-8 g
//! range, 4096 counts per g) and milli-degrees-per-second (at the
//! +/-500 deg/s range, 65.5 counts per deg/s).

use vstd::prelude::*;

use crate::config::{ACCEL_COUNTS_PER_G, GYRO_HALF_COUNTS_PER_DPS};
use crate::events::SensorData;

verus! {

/// The signed 16-bit value of two big-endian bytes.
pub open spec fn spec_i16_be(hi: u8, lo: u8) -> int {
    let unsigned = hi * 256 + lo;
    if unsigned < 32768 {
        unsigned as int
    } else {
        unsigned - 65536
    }
}

/// Milli-g for an acceleration count: scaled by 1000 over the counts per
/// g, rounded toward zero.
pub open spec fn spec_accel_milli_g(count: int) -> int {
    if count >= 0 {
        count * 1000 / (ACCEL_COUNTS_PER_G as int)
    } else {
        -((-count) * 1000 / (ACCEL_COUNTS_PER_G as int))
    }
}

/// Milli-degrees-per-second for an angular-rate count: 65.5 counts per
/// deg/s is 131 half-counts, so scale by 2000 over 131, rounded toward
/// zero.
pub open spec fn spec_gyro_milli_dps(count: int) -> int {
    if count >= 0 {
        count * 2000 / (GYRO_HALF_COUNTS_PER_DPS as int)
    } else {
        -((-count) * 2000 / (GYRO_HALF_COUNTS_PER_DPS as int))
    }
}

/// The frame a 14-byte burst read denotes.
pub open spec fn spec_decode_frame(raw: Seq<u8>) -> SensorData {
    SensorData {
        ax: spec_accel_milli_g(spec_i16_be(raw[0], raw[1])) as i32,
        ay: spec_accel_milli_g(spec_i16_be(raw[2], raw[3])) as i32,
        az: spec_accel_milli_g(spec_i16_be(raw[4], raw[5])) as i32,
        gx: spec_gyro_milli_dps(spec_i16_be(raw[8], raw[9])) as i32,
        gy: spec_gyro_milli_dps(spec_i16_be(raw[10], raw[11])) as i32,
        gz: spec_gyro_milli_dps(spec_i16_be(raw[12], raw[13])) as i32,
    }
}

/// Reassemble the signed 16-bit count behind two big-endian bytes.
fn i16_be(hi: u8, lo: u8) -> (v: i32)
    ensures
        v == spec_i16_be(hi, lo),
        -32768 <= v <= 32767,
{
    let unsigned: u32 = (hi as u32) * 256 + (lo as u32);
    if unsigned < 32768 {
        unsigned as i32
    } else {
        (unsigned as i32) - 65536
    }
}

/// Scale an acceleration count to milli-g.
fn accel_milli_g(count: i32) -> (r: i32)
    requires
        -32768 <= count <= 32767,
    ensures
        r == spec_accel_milli_g(count as int),
{
    if count >= 0 {
        ((count as u32) * 1000 / (ACCEL_COUNTS_PER_G as u32)) as i32
    } else {
        -((((-count) as u32) * 1000 / (ACCEL_COUNTS_PER_G as u32)) as i32)
    }
}

/// Scale an angular-rate count to milli-degrees-per-second.
fn gyro_milli_dps(count: i32) -> (r: i32)
    requires
        -32768 <= count <= 32767,
    ensures
        r == spec_gyro_milli_dps(count as int),
{
    if count >= 0 {
        ((count as u32) * 2000 / (GYRO_HALF_COUNTS_PER_DPS as u32)) as i32
    } else {
        -((((-count) as u32) * 2000 / (GYRO_HALF_COUNTS_PER_DPS as u32)) as i32)
    }
}

/// Decode one 14-byte burst read into a frame in physical milli-units.
pub fn decode_frame(raw: &[u8; 14]) -> (d: SensorData)
    ensures
        d == spec_decode_frame(raw@),
{
    SensorData {
        ax: accel_milli_g(i16_be(raw[0], raw[1])),
        ay: accel_milli_g(i16_be(raw[2], raw[3])),
        az: accel_milli_g(i16_be(raw[4], raw[5])),
        gx: gyro_milli_dps(i16_be(raw[8], raw[9])),
        gy: gyro_milli_dps(i16_be(raw[10], raw[11])),
        gz: gyro_milli_dps(i16_be(raw[12], raw[13])),
    }
}

/// Remaining time the sampling loop should sleep after a tick that took
/// `elapsed_ms`: the rest of the period, or nothing if the tick overran, so
/// the cadence is kept without ever blocking on the consumer.
pub fn remaining_sleep_ms(elapsed_ms: u64, interval_ms: u64) -> (r: u64)
    ensures
        elapsed_ms < interval_ms ==> r == interval_ms - elapsed_ms,
        elapsed_ms >= interval_ms ==> r == 0,
{
    if elapsed_ms < interval_ms {
        interval_ms - elapsed_ms
    } else {
        0
    }
}

} // verus!
