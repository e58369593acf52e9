//! Layout of the fixed-size output frames sent to the device.

use vstd::prelude::*;
use crate::report::Report;

verus! {

/// Every output frame built here is this long.
pub const FRAME_LEN: usize = 22;

/// The most data bytes one register-write frame can carry.
pub const MAX_REGISTER_DATA: usize = 16;

/// Audio samples carried by one speaker-data frame.
pub const AUDIO_CHUNK: usize = 20;

/// Memory selector of a register-write frame: register space, not EEPROM.
pub const REGISTER_SPACE: u8 = 0x04;

/// `frame` with bit 0 of its second byte set to `on`, every other bit as it was.
pub open spec fn with_motor(frame: Seq<u8>, on: bool) -> Seq<u8>
    recommends
        frame.len() >= 2,
{
    frame.update(1, if on { frame[1] | 1u8 } else { frame[1] & !1u8 })
}

/// Forces bit 0 of the second byte to the motor flag, as every output report must carry it.
pub fn stamp_motor(bytes: &mut [u8], on: bool)
    requires
        old(bytes)@.len() >= 2,
    ensures
        final(bytes)@ == with_motor(old(bytes)@, on),
{
    let b = bytes[1];
    if on {
        bytes[1] = b | 1u8;
    } else {
        bytes[1] = b & !1u8;
    }
}

/// Number of data bytes a register write keeps out of `len`.
pub open spec fn register_data_len(len: nat) -> nat {
    if len > MAX_REGISTER_DATA { MAX_REGISTER_DATA as nat } else { len }
}

/// The register-write frame for `data` at the 24-bit address held in the low
/// three bytes of `addr`.
pub open spec fn register_frame_spec(addr: u32, data: Seq<u8>) -> Seq<u8> {
    let n = register_data_len(data.len());
    Seq::new(
        FRAME_LEN as nat,
        |i: int|
            if i == 0 {
                Report::WriteMemoryAndRegisters.spec_code()
            } else if i == 1 {
                REGISTER_SPACE
            } else if i == 2 {
                (addr >> 16u32) as u8
            } else if i == 3 {
                (addr >> 8u32) as u8
            } else if i == 4 {
                addr as u8
            } else if i == 5 {
                n as u8
            } else if i < 6 + n {
                data[i - 6]
            } else {
                0u8
            },
    )
}

/// Builds the register-write frame; data past the sixteenth byte is dropped.
pub fn register_frame(addr: u32, data: &[u8]) -> (r: Vec<u8>)
    ensures
        r@ == register_frame_spec(addr, data@),
{
    let n: usize = if data.len() > MAX_REGISTER_DATA { MAX_REGISTER_DATA } else { data.len() };
    let ghost spec_frame = register_frame_spec(addr, data@);
    let mut f: Vec<u8> = Vec::new();
    f.push(Report::WriteMemoryAndRegisters.code());
    f.push(REGISTER_SPACE);
    f.push((addr >> 16u32) as u8);
    f.push((addr >> 8u32) as u8);
    f.push(addr as u8);
    f.push(n as u8);
    let mut i: usize = 0;
    while i < n
        invariant
            n == register_data_len(data@.len()),
            n <= data@.len(),
            n <= MAX_REGISTER_DATA,
            spec_frame == register_frame_spec(addr, data@),
            spec_frame.len() == FRAME_LEN,
            i <= n,
            f@.len() == 6 + i,
            forall|j: int| 0 <= j < f@.len() ==> f@[j] == spec_frame[j],
        decreases n - i,
    {
        f.push(data[i]);
        i = i + 1;
    }
    while f.len() < FRAME_LEN
        invariant
            6 + n <= f@.len() <= FRAME_LEN,
            n == register_data_len(data@.len()),
            spec_frame == register_frame_spec(addr, data@),
            spec_frame.len() == FRAME_LEN,
            forall|j: int| 0 <= j < f@.len() ==> f@[j] == spec_frame[j],
        decreases FRAME_LEN - f@.len(),
    {
        f.push(0u8);
    }
    assert(f@ =~= spec_frame);
    f
}

/// Number of speaker-data frames that carry `len` samples: one per started chunk.
pub open spec fn audio_frame_count(len: nat) -> nat {
    ((len + AUDIO_CHUNK - 1) / (AUDIO_CHUNK as int)) as nat
}

/// The samples carried by chunk `k` of `audio`.
pub open spec fn audio_chunk(audio: Seq<u8>, k: int) -> Seq<u8> {
    let start = k * AUDIO_CHUNK as int;
    let end = if start + AUDIO_CHUNK as int <= audio.len() {
        start + AUDIO_CHUNK as int
    } else {
        audio.len() as int
    };
    audio.subrange(start, end)
}

/// The speaker-data frame that carries `chunk`: the length, shifted left by
/// three, in the second byte, then the samples, then zeros.
pub open spec fn audio_frame_spec(chunk: Seq<u8>) -> Seq<u8> {
    Seq::new(
        FRAME_LEN as nat,
        |i: int|
            if i == 0 {
                Report::SpeakerData.spec_code()
            } else if i == 1 {
                (chunk.len() * 8) as u8
            } else if i < 2 + chunk.len() {
                chunk[i - 2]
            } else {
                0u8
            },
    )
}

/// All speaker-data frames for `audio`, in playing order.
pub open spec fn audio_frames_spec(audio: Seq<u8>) -> Seq<Seq<u8>> {
    Seq::new(audio_frame_count(audio.len()), |k: int| audio_frame_spec(audio_chunk(audio, k)))
}

/// The samples a speaker-data frame carries, as its second byte announces them.
pub open spec fn audio_payload(frame: Seq<u8>) -> Seq<u8> {
    frame.subrange(2, 2 + (frame[1] / 8) as int)
}

/// How many speaker-data frames `len` samples take.
pub fn audio_frames_needed(len: usize) -> (r: usize)
    ensures
        r == audio_frame_count(len as nat),
{
    let q = len / AUDIO_CHUNK;
    if len % AUDIO_CHUNK == 0 {
        q
    } else {
        q + 1
    }
}

/// The speaker-data frame for chunk `k` of `audio`.
pub fn audio_frame(audio: &[u8], k: usize) -> (r: Vec<u8>)
    requires
        k < audio_frame_count(audio@.len() as nat),
    ensures
        r@ == audio_frame_spec(audio_chunk(audio@, k as int)),
{
    let len = audio.len();
    let ghost chunk = audio_chunk(audio@, k as int);
    let ghost spec_frame = audio_frame_spec(chunk);
    assert(k * 20 < len) by (nonlinear_arith)
        requires
            k < (len + 20 - 1) / 20,
    ;
    let start: usize = k * AUDIO_CHUNK;
    let end: usize = if len - start >= AUDIO_CHUNK {
        start + AUDIO_CHUNK
    } else {
        len
    };
    let n: usize = end - start;
    assert(chunk.len() == n);
    let mut f: Vec<u8> = Vec::new();
    f.push(Report::SpeakerData.code());
    f.push((n * 8) as u8);
    let mut i: usize = 0;
    while i < n
        invariant
            start + n == end,
            end <= audio@.len(),
            n == chunk.len(),
            n <= AUDIO_CHUNK,
            chunk == audio@.subrange(start as int, end as int),
            spec_frame == audio_frame_spec(chunk),
            spec_frame.len() == FRAME_LEN,
            i <= n,
            f@.len() == 2 + i,
            forall|j: int| 0 <= j < f@.len() ==> f@[j] == spec_frame[j],
        decreases n - i,
    {
        f.push(audio[start + i]);
        i = i + 1;
    }
    while f.len() < FRAME_LEN
        invariant
            2 + n <= f@.len() <= FRAME_LEN,
            n == chunk.len(),
            spec_frame == audio_frame_spec(chunk),
            spec_frame.len() == FRAME_LEN,
            forall|j: int| 0 <= j < f@.len() ==> f@[j] == spec_frame[j],
        decreases FRAME_LEN - f@.len(),
    {
        f.push(0u8);
    }
    assert(f@ =~= spec_frame);
    f
}

/// The register-write frame is 22 bytes long. Byte 5 gives the number of data
/// bytes kept: all of them up to sixteen, exactly sixteen beyond. The kept data
/// follows from byte 6, and zeros fill the rest.
pub proof fn lemma_register_frame_layout(addr: u32, data: Seq<u8>)
    ensures
        ({
            let f = register_frame_spec(addr, data);
            &&& f.len() == FRAME_LEN
            &&& data.len() > MAX_REGISTER_DATA ==> f[5] == MAX_REGISTER_DATA as u8 && f.subrange(
                6,
                FRAME_LEN as int,
            ) == data.subrange(0, MAX_REGISTER_DATA as int)
            &&& data.len() <= MAX_REGISTER_DATA ==> f[5] == data.len() as u8 && f.subrange(
                6,
                6 + data.len() as int,
            ) == data && (forall|i: int| 6 + data.len() <= i < FRAME_LEN ==> f[i] == 0u8)
        }),
{
    let f = register_frame_spec(addr, data);
    if data.len() > MAX_REGISTER_DATA {
        assert(f.subrange(6, FRAME_LEN as int) =~= data.subrange(0, MAX_REGISTER_DATA as int));
    } else {
        assert(f.subrange(6, 6 + data.len() as int) =~= data);
    }
}

/// Stamping the motor bit on, then off, onto the same frame gives two frames that
/// differ in bit 0 of the second byte and agree everywhere else, each byte other
/// than the second being the frame's own.
pub proof fn lemma_motor_on_then_off(frame: Seq<u8>)
    requires
        frame.len() >= 2,
    ensures
        ({
            let on = with_motor(frame, true);
            let off = with_motor(frame, false);
            &&& on.len() == frame.len() && off.len() == frame.len()
            &&& on[1] & 1u8 == 1u8 && off[1] & 1u8 == 0u8
            &&& on[1] & !1u8 == frame[1] & !1u8 && off[1] & !1u8 == frame[1] & !1u8
            &&& forall|i: int| 0 <= i < frame.len() && i != 1 ==> on[i] == frame[i] && off[i] == frame[i]
        }),
{
    let b = frame[1];
    assert((b | 1u8) & 1u8 == 1u8 && (b & !1u8) & 1u8 == 0u8 && (b | 1u8) & !1u8 == b & !1u8 && (b
        & !1u8) & !1u8 == b & !1u8) by (bit_vector);
}

/// The samples carried by the first `k` chunks of `audio`, one after the other.
pub open spec fn audio_chunks(audio: Seq<u8>, k: nat) -> Seq<Seq<u8>> {
    Seq::new(k, |j: int| audio_chunk(audio, j))
}

/// A speaker-data frame gives back, as its payload, the chunk it was built from.
proof fn lemma_audio_payload(chunk: Seq<u8>)
    requires
        chunk.len() <= AUDIO_CHUNK,
    ensures
        audio_payload(audio_frame_spec(chunk)) == chunk,
{
    assert(audio_frame_spec(chunk)[1] / 8 == chunk.len());
    assert(audio_payload(audio_frame_spec(chunk)) =~= chunk);
}

/// The first `k` full chunks together are the first `20 * k` samples.
proof fn lemma_audio_chunks_prefix(audio: Seq<u8>, k: nat)
    requires
        k * AUDIO_CHUNK <= audio.len(),
    ensures
        audio_chunks(audio, k).flatten() == audio.subrange(0, k * AUDIO_CHUNK as int),
    decreases k,
{
    if k == 0 {
        assert(audio_chunks(audio, 0).flatten() =~= audio.subrange(0, 0));
    } else {
        let p = (k - 1) as nat;
        lemma_audio_chunks_prefix(audio, p);
        assert(audio_chunks(audio, k) =~= audio_chunks(audio, p).push(audio_chunk(audio, p as int)));
        audio_chunks(audio, p).lemma_flatten_push(audio_chunk(audio, p as int));
        assert(audio.subrange(0, k * AUDIO_CHUNK as int) =~= audio.subrange(0, p * AUDIO_CHUNK as int)
            + audio_chunk(audio, p as int));
    }
}

/// Playing `audio` takes one 22-byte frame for each started chunk of 20
/// samples. Each frame carries its chunk, zeros after it, and the carried
/// chunks put together give back `audio` exactly.
pub proof fn lemma_audio_frames(audio: Seq<u8>)
    ensures
        ({
            let frames = audio_frames_spec(audio);
            &&& frames.len() == audio_frame_count(audio.len())
            &&& frames.len() * AUDIO_CHUNK >= audio.len()
            &&& frames.len() * AUDIO_CHUNK < audio.len() + AUDIO_CHUNK
            &&& forall|k: int| 0 <= k < frames.len() ==> #[trigger] frames[k].len() == FRAME_LEN
            &&& forall|k: int, i: int|
                0 <= k < frames.len() && 2 + audio_chunk(audio, k).len() <= i < FRAME_LEN
                    ==> #[trigger] frames[k][i] == 0u8
            &&& Seq::new(frames.len(), |k: int| audio_payload(frames[k])).flatten() == audio
        }),
{
    let frames = audio_frames_spec(audio);
    let n = frames.len();
    let len = audio.len();
    assert(n * 20 >= len && n * 20 < len + 20) by (nonlinear_arith)
        requires
            n == (len + 20 - 1) / 20,
    ;
    assert forall|k: int| 0 <= k < n implies audio_chunk(audio, k).len() <= AUDIO_CHUNK by {
        assert(k * 20 <= (n - 1) * 20) by (nonlinear_arith)
            requires
                k <= n - 1,
        ;
    }
    assert(Seq::new(n, |k: int| audio_payload(frames[k])) =~= audio_chunks(audio, n)) by {
        assert forall|k: int| 0 <= k < n implies audio_payload(frames[k]) == audio_chunk(audio, k) by {
            assert(k * 20 <= (n - 1) * 20) by (nonlinear_arith)
                requires
                    k <= n - 1,
            ;
            lemma_audio_payload(audio_chunk(audio, k));
        }
    }
    if n > 0 {
        let p = (n - 1) as nat;
        assert(p * 20 <= len) by (nonlinear_arith)
            requires
                p == n - 1,
                n * 20 < len + 20,
        ;
        lemma_audio_chunks_prefix(audio, p);
        assert(audio_chunks(audio, n) =~= audio_chunks(audio, p).push(audio_chunk(audio, p as int)));
        audio_chunks(audio, p).lemma_flatten_push(audio_chunk(audio, p as int));
        assert(audio =~= audio.subrange(0, p * AUDIO_CHUNK as int) + audio_chunk(audio, p as int));
    } else {
        assert(audio_chunks(audio, 0).flatten() =~= audio);
    }
}

} // verus!
