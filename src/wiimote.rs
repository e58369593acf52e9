//! The device driver: owns the HID handle and the motor flag, and sends frames.

use vstd::prelude::*;
use hidapi::{HidDevice, HidError};
use crate::frames::{
    audio_frame, audio_frame_count, audio_frames_needed, audio_frames_spec, register_frame,
    register_frame_spec, stamp_motor, with_motor,
};
use crate::report::Report;

verus! {

/// hidapi's handle on an open HID device, carried through opaque.
#[verifier::external_type_specification]
#[verifier::external_body]
pub struct ExHidDevice(HidDevice);

/// hidapi's error, handed back to the caller as it came.
#[verifier::external_type_specification]
#[verifier::external_body]
pub struct ExHidError(HidError);

/// Relies on hidapi's `HidDevice::write`: sends `data` as one output report.
pub assume_specification[ HidDevice::write ](dev: &HidDevice, data: &[u8]) -> Result<
    usize,
    HidError,
>;

/// Relies on hidapi's `HidDevice::read`: fills `buf` in place from the next
/// input report; a slice keeps its length.
pub assume_specification[ HidDevice::read ](dev: &HidDevice, buf: &mut [u8]) -> (r: Result<
    usize,
    HidError,
>)
    ensures
        final(buf)@.len() == old(buf)@.len(),
;

/// Wait, in milliseconds, that the device needs after a register write or an audio chunk.
pub const SETTLE_MS: u64 = 10;

/// Each frame of `frames` with the motor bit stamped on.
pub open spec fn stamped(frames: Seq<Seq<u8>>, on: bool) -> Seq<Seq<u8>> {
    Seq::new(frames.len(), |k: int| with_motor(frames[k], on))
}

/// The seven frames that switch the speaker on, configure it and unmute it, in order.
pub open spec fn speaker_setup_frames() -> Seq<Seq<u8>> {
    seq![
        seq![Report::SpeakerEnable.spec_code(), 0x04u8],
        seq![Report::SpeakerMute.spec_code(), 0x04u8],
        register_frame_spec(0x00a20009, seq![0x01u8]),
        register_frame_spec(0x00a20001, seq![0x08u8]),
        register_frame_spec(0x00a20001, seq![0x00u8, 0x40u8, 0x70u8, 0x17u8, 0x10u8, 0x00u8, 0x00u8]),
        register_frame_spec(0x00a20008, seq![0x01u8]),
        seq![Report::SpeakerMute.spec_code(), 0x00u8],
    ]
}

/// `after` is `before` followed by a first part of `planned`, at least one frame
/// long: the frames handed to the device up to and including the one that failed.
pub open spec fn sent_prefix(after: Seq<Seq<u8>>, before: Seq<Seq<u8>>, planned: Seq<Seq<u8>>) -> bool {
    exists|k: int| 1 <= k <= planned.len() && after == before + planned.take(k)
}

/// A connected controller. Every frame written carries the current motor flag.
pub struct Wiimote {
    inner: HidDevice,
    rumble: bool,
    sent: Ghost<Seq<Seq<u8>>>,
}

impl Wiimote {
    /// Whether the force-feedback motor is on.
    pub closed spec fn motor(&self) -> bool {
        self.rumble
    }

    /// Every frame handed to the device so far, in order, as it was sent.
    pub closed spec fn sent(&self) -> Seq<Seq<u8>> {
        self.sent@
    }

    /// Takes over an open HID handle; the motor starts off.
    pub fn new(inner: HidDevice) -> (r: Wiimote)
        ensures
            !r.motor(),
            r.sent() == Seq::<Seq<u8>>::empty(),
    {
        Wiimote { inner, rumble: false, sent: Ghost(Seq::empty()) }
    }

    /// Sets the motor flag; it shows on the next frame written.
    pub fn rumble(&mut self, rumble: bool)
        ensures
            final(self).motor() == rumble,
            final(self).sent() == old(self).sent(),
    {
        self.rumble = rumble;
    }

    /// Stamps the motor flag onto bit 0 of the second byte, then sends the frame.
    pub fn write(&mut self, bytes: &mut [u8]) -> (r: Result<usize, HidError>)
        requires
            old(bytes)@.len() >= 2,
        ensures
            final(bytes)@ == with_motor(old(bytes)@, old(self).motor()),
            final(self).motor() == old(self).motor(),
            final(self).sent() == old(self).sent().push(final(bytes)@),
    {
        stamp_motor(bytes, self.rumble);
        self.sent = Ghost(self.sent@.push(bytes@));
        self.inner.write(bytes)
    }

    /// Reads the next input report into `buf`, blocking until one comes.
    pub fn read(&self, buf: &mut [u8]) -> (r: Result<usize, HidError>)
        ensures
            final(buf)@.len() == old(buf)@.len(),
    {
        self.inner.read(buf)
    }

    /// Sends one register-write frame for `data` at `addr`, then waits the
    /// settle time through `pause`.
    pub fn write_registers<F: Fn(u64)>(&mut self, addr: u32, data: &[u8], pause: &F) -> (r: Result<
        usize,
        HidError,
    >)
        requires
            forall|ms: u64| pause.requires((ms,)),
        ensures
            final(self).motor() == old(self).motor(),
            final(self).sent() == old(self).sent().push(
                with_motor(register_frame_spec(addr, data@), old(self).motor()),
            ),
    {
        let mut frame = register_frame(addr, data);
        let r = self.write(frame.as_mut_slice());
        pause(SETTLE_MS);
        r
    }

    /// Switches the speaker on and configures it: enable, mute, four register
    /// writes, unmute, in that order. Stops at the first failed write.
    pub fn setup_speakers<F: Fn(u64)>(&mut self, pause: &F) -> (r: Result<(), HidError>)
        requires
            forall|ms: u64| pause.requires((ms,)),
        ensures
            final(self).motor() == old(self).motor(),
            r is Ok ==> final(self).sent() == old(self).sent() + stamped(
                speaker_setup_frames(),
                old(self).motor(),
            ),
            r is Err ==> sent_prefix(
                final(self).sent(),
                old(self).sent(),
                stamped(speaker_setup_frames(), old(self).motor()),
            ),
    {
        let ghost before = self.sent@;
        let ghost planned = stamped(speaker_setup_frames(), self.rumble);
        let mut enable: Vec<u8> = vec![Report::SpeakerEnable.code(), 0x04u8];
        let r = self.write(enable.as_mut_slice());
        assert(self.sent@ =~= before + planned.take(1));
        if let Err(e) = r {
            return Err(e);
        }
        let mut mute: Vec<u8> = vec![Report::SpeakerMute.code(), 0x04u8];
        let r = self.write(mute.as_mut_slice());
        assert(self.sent@ =~= before + planned.take(2));
        if let Err(e) = r {
            return Err(e);
        }
        let d1: Vec<u8> = vec![0x01u8];
        let r = self.write_registers(0x00a20009, d1.as_slice(), pause);
        assert(d1@ =~= seq![0x01u8]);
        assert(self.sent@ =~= before + planned.take(3));
        if let Err(e) = r {
            return Err(e);
        }
        let d2: Vec<u8> = vec![0x08u8];
        let r = self.write_registers(0x00a20001, d2.as_slice(), pause);
        assert(d2@ =~= seq![0x08u8]);
        assert(self.sent@ =~= before + planned.take(4));
        if let Err(e) = r {
            return Err(e);
        }
        let d3: Vec<u8> = vec![0x00u8, 0x40u8, 0x70u8, 0x17u8, 0x10u8, 0x00u8, 0x00u8];
        let r = self.write_registers(0x00a20001, d3.as_slice(), pause);
        assert(d3@ =~= seq![0x00u8, 0x40u8, 0x70u8, 0x17u8, 0x10u8, 0x00u8, 0x00u8]);
        assert(self.sent@ =~= before + planned.take(5));
        if let Err(e) = r {
            return Err(e);
        }
        let d4: Vec<u8> = vec![0x01u8];
        let r = self.write_registers(0x00a20008, d4.as_slice(), pause);
        assert(d4@ =~= seq![0x01u8]);
        assert(self.sent@ =~= before + planned.take(6));
        if let Err(e) = r {
            return Err(e);
        }
        let mut unmute: Vec<u8> = vec![Report::SpeakerMute.code(), 0x00u8];
        let r = self.write(unmute.as_mut_slice());
        assert(self.sent@ =~= before + planned.take(7));
        if let Err(e) = r {
            return Err(e);
        }
        assert(planned.take(7) =~= planned);
        Ok(())
    }

    /// Streams `audio` to the speaker: one frame per chunk of up to 20 samples,
    /// each followed by the settle wait. Stops at the first failed write.
    pub fn play_audio<F: Fn(u64)>(&mut self, audio: &[u8], pause: &F) -> (r: Result<(), HidError>)
        requires
            forall|ms: u64| pause.requires((ms,)),
        ensures
            final(self).motor() == old(self).motor(),
            r is Ok ==> final(self).sent() == old(self).sent() + stamped(
                audio_frames_spec(audio@),
                old(self).motor(),
            ),
            r is Err ==> sent_prefix(
                final(self).sent(),
                old(self).sent(),
                stamped(audio_frames_spec(audio@), old(self).motor()),
            ),
    {
        let ghost before = self.sent@;
        let ghost m = self.rumble;
        let ghost planned = stamped(audio_frames_spec(audio@), self.rumble);
        let n = audio_frames_needed(audio.len());
        let mut k: usize = 0;
        while k < n
            invariant
                n == audio_frame_count(audio@.len() as nat),
                planned == stamped(audio_frames_spec(audio@), m),
                planned.len() == n,
                k <= n,
                self.rumble == m,
                m == old(self).motor(),
                before == old(self).sent(),
                self.sent@ == before + planned.take(k as int),
                forall|ms: u64| pause.requires((ms,)),
            decreases n - k,
        {
            let mut frame = audio_frame(audio, k);
            let r = self.write(frame.as_mut_slice());
            assert(self.sent@ =~= before + planned.take(k + 1));
            if let Err(e) = r {
                return Err(e);
            }
            pause(SETTLE_MS);
            k = k + 1;
        }
        assert(planned.take(n as int) =~= planned);
        Ok(())
    }
}

} // verus!
