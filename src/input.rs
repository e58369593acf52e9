//! Decoding of input reports in the combined buttons and accelerometer mode.

use vstd::prelude::*;
use crate::flags::{be16, ButtonFlags, KNOWN_BITS};
use crate::report::Report;

verus! {

/// One input report of the combined mode: buttons and raw accelerometer axes.
#[derive(Clone, Copy, Debug, PartialEq, Eq, Structural)]
pub struct CoreInput {
    pub buttons: ButtonFlags,
    /// Accelerometer axes, in the device's raw units.
    pub x: u8,
    pub y: u8,
    pub z: u8,
}

/// Decodes `report` if it is a combined buttons and accelerometer report: byte
/// 0 is that report's code, bytes 1 and 2 the button field, bytes 3 to 5 the axes.
pub fn parse_core_input(report: &[u8]) -> (r: Option<CoreInput>)
    ensures
        r is Some <==> report@.len() >= 6 && report@[0] == Report::CoreButtonsAccelerometer.spec_code(),
        r matches Some(c) ==> c.buttons.wf() && c.buttons.view_bits() == be16(report@[1], report@[2])
            & KNOWN_BITS && c.x == report@[3] && c.y == report@[4] && c.z == report@[5],
{
    if report.len() < 6 || report[0] != Report::CoreButtonsAccelerometer.code() {
        return None;
    }
    let buttons = match ButtonFlags::from_bytes(&report[1..3]) {
        Ok(b) => b,
        Err(_) => return None,
    };
    Some(CoreInput { buttons, x: report[3], y: report[4], z: report[5] })
}

/// Whether a reading moved from at most `threshold` to above it.
pub fn rose_above(prev: u8, new: u8, threshold: u8) -> (r: bool)
    ensures
        r == (prev <= threshold && new > threshold),
{
    prev <= threshold && new > threshold
}

} // verus!
