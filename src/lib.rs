//! Protocol driver for a handheld game controller reached over HID reports.

pub mod flags;
pub mod frames;
pub mod input;
pub mod report;
pub mod supervisor;
pub mod wiimote;
