//! The one-byte identifiers that open every report exchanged with the device.

use vstd::prelude::*;

verus! {

/// Report identifiers: the first byte of every outgoing or incoming frame.
#[derive(Clone, Copy, Debug, PartialEq, Eq, Structural)]
pub enum Report {
    /// Force-feedback motor toggle.
    Rumble,
    /// Status LEDs.
    PlayerLeds,
    /// Selects which input report the device sends.
    DataReportingMode,
    /// Turns the speaker on or off.
    SpeakerEnable,
    /// Writes into the device's memory or register space.
    WriteMemoryAndRegisters,
    /// One chunk of audio samples.
    SpeakerData,
    /// Mutes or unmutes the speaker.
    SpeakerMute,
    /// Input report carrying buttons and accelerometer.
    CoreButtonsAccelerometer,
}

impl Report {
    /// The byte that stands for this report on the wire.
    pub open spec fn spec_code(self) -> u8 {
        match self {
            Report::Rumble => 0x10,
            Report::PlayerLeds => 0x11,
            Report::DataReportingMode => 0x12,
            Report::SpeakerEnable => 0x14,
            Report::WriteMemoryAndRegisters => 0x16,
            Report::SpeakerData => 0x18,
            Report::SpeakerMute => 0x19,
            Report::CoreButtonsAccelerometer => 0x31,
        }
    }

    #[verifier::when_used_as_spec(spec_code)]
    pub fn code(self) -> (r: u8)
        ensures
            r == self.spec_code(),
    {
        match self {
            Report::Rumble => 0x10,
            Report::PlayerLeds => 0x11,
            Report::DataReportingMode => 0x12,
            Report::SpeakerEnable => 0x14,
            Report::WriteMemoryAndRegisters => 0x16,
            Report::SpeakerData => 0x18,
            Report::SpeakerMute => 0x19,
            Report::CoreButtonsAccelerometer => 0x31,
        }
    }

    /// The report whose identifier is `code`, if there is one.
    pub fn from_code(code: u8) -> (r: Option<Report>)
        ensures
            r matches Some(rep) ==> rep.spec_code() == code,
            r is None ==> forall|rep: Report| rep.spec_code() != code,
    {
        if code == 0x10 {
            Some(Report::Rumble)
        } else if code == 0x11 {
            Some(Report::PlayerLeds)
        } else if code == 0x12 {
            Some(Report::DataReportingMode)
        } else if code == 0x14 {
            Some(Report::SpeakerEnable)
        } else if code == 0x16 {
            Some(Report::WriteMemoryAndRegisters)
        } else if code == 0x18 {
            Some(Report::SpeakerData)
        } else if code == 0x19 {
            Some(Report::SpeakerMute)
        } else if code == 0x31 {
            Some(Report::CoreButtonsAccelerometer)
        } else {
            None
        }
    }
}

} // verus!
