use riimote::flags::{fb, sb, Button, ButtonFlags, DecodeError, KNOWN_BITS};
use riimote::frames::{
    audio_frame, audio_frames_needed, register_frame, stamp_motor, AUDIO_CHUNK, FRAME_LEN,
};
use riimote::input::{parse_core_input, rose_above};
use riimote::report::Report;

#[test]
fn report_codes() {
    assert_eq!(Report::Rumble.code(), 0x10);
    assert_eq!(Report::PlayerLeds.code(), 0x11);
    assert_eq!(Report::DataReportingMode.code(), 0x12);
    assert_eq!(Report::SpeakerEnable.code(), 0x14);
    assert_eq!(Report::WriteMemoryAndRegisters.code(), 0x16);
    assert_eq!(Report::SpeakerData.code(), 0x18);
    assert_eq!(Report::SpeakerMute.code(), 0x19);
    assert_eq!(Report::CoreButtonsAccelerometer.code(), 0x31);
    assert_eq!(Report::from_code(0x31), Some(Report::CoreButtonsAccelerometer));
    assert_eq!(Report::from_code(0x20), None);
}

#[test]
fn byte_masks() {
    assert_eq!(fb(0), 0x0100);
    assert_eq!(fb(4), 0x1000);
    assert_eq!(sb(0), 0x0001);
    assert_eq!(sb(7), 0x0080);
    assert_eq!(Button::A.mask(), 0x0008);
    assert_eq!(Button::Home.mask(), 0x0080);
    assert_eq!(Button::DPadUp.mask(), 0x0800);
}

#[test]
fn decode_a_button() {
    let f = ButtonFlags::from_bytes(&[0x00, 0x08]).unwrap();
    assert_eq!(f.bits(), 0x0008);
    assert!(f.contains_button(Button::A));
    assert!(!f.contains_button(Button::B));
    assert!(f.contains(ButtonFlags::button(Button::A)));
}

#[test]
fn decode_drops_unknown_bits() {
    let f = ButtonFlags::from_bytes(&[0xe0, 0x60]).unwrap();
    assert!(f.is_empty());
    let g = ButtonFlags::from_bytes(&[0xff, 0xff]).unwrap();
    assert_eq!(g.bits(), KNOWN_BITS);
    assert_eq!(g, ButtonFlags::all());
}

#[test]
fn decode_every_two_byte_input() {
    for hi in 0..=255u8 {
        for lo in 0..=255u8 {
            let f = ButtonFlags::from_bytes(&[hi, lo]).unwrap();
            assert_eq!(f.bits(), u16::from_be_bytes([hi, lo]) & KNOWN_BITS);
        }
    }
}

#[test]
fn decode_too_short() {
    assert_eq!(ButtonFlags::from_bytes(&[0x00]), Err(DecodeError::MalformedInput));
    assert_eq!(ButtonFlags::from_bytes(&[]), Err(DecodeError::MalformedInput));
}

#[test]
fn decode_uses_first_two_bytes() {
    let f = ButtonFlags::from_bytes(&[0x10, 0x00, 0xff]).unwrap();
    assert_eq!(f, ButtonFlags::button(Button::Plus));
}

#[test]
fn encode_then_decode() {
    let f = ButtonFlags::button(Button::Home)
        .union(ButtonFlags::button(Button::DPadLeft))
        .union(ButtonFlags::button(Button::Two));
    let bytes = f.to_bytes();
    assert_eq!(bytes, [0x01, 0x81]);
    assert_eq!(ButtonFlags::from_bytes(&bytes).unwrap(), f);
    let all = ButtonFlags::all();
    assert_eq!(ButtonFlags::from_bytes(&all.to_bytes()).unwrap(), all);
}

#[test]
fn difference_of_equal_sets_is_empty() {
    let a = ButtonFlags::from_bytes(&[0x1f, 0x9f]).unwrap();
    assert!(a.difference(a).is_empty());
    assert_eq!(ButtonFlags::empty().difference(ButtonFlags::empty()), ButtonFlags::empty());
}

#[test]
fn difference_keeps_new_presses() {
    let a = ButtonFlags::button(Button::A).union(ButtonFlags::button(Button::B));
    let b = ButtonFlags::button(Button::B).union(ButtonFlags::button(Button::Minus));
    let d = a.union(b).difference(a);
    assert!(d.contains(ButtonFlags::button(Button::Minus)));
    assert!(!d.contains_button(Button::B));
    assert!(!d.contains_button(Button::A));
    let just = ButtonFlags::button(Button::Plus).difference(ButtonFlags::empty());
    assert!(just.contains_button(Button::Plus));
}

#[test]
fn register_frame_short_data() {
    let f = register_frame(0x00a20009, &[0x01]);
    let mut expected = vec![0x16, 0x04, 0xa2, 0x00, 0x09, 0x01, 0x01];
    expected.resize(FRAME_LEN, 0);
    assert_eq!(f, expected);
}

#[test]
fn register_frame_seven_bytes() {
    let data = [0x00, 0x40, 0x70, 0x17, 0x10, 0x00, 0x00];
    let f = register_frame(0x00a20001, &data);
    assert_eq!(f.len(), 22);
    assert_eq!(f[5], 7);
    assert_eq!(&f[6..13], &data);
    assert!(f[13..].iter().all(|&b| b == 0));
}

#[test]
fn register_frame_drops_high_address_byte() {
    let f = register_frame(0xff123456, &[]);
    assert_eq!(&f[..6], &[0x16, 0x04, 0x12, 0x34, 0x56, 0x00]);
    assert!(f[6..].iter().all(|&b| b == 0));
}

#[test]
fn register_frame_truncates_to_sixteen() {
    let data: Vec<u8> = (1..=20).collect();
    let f = register_frame(0x00a20005, &data);
    assert_eq!(f.len(), 22);
    assert_eq!(f[5], 16);
    assert_eq!(&f[6..22], &data[..16]);
    let exact: Vec<u8> = (1..=16).collect();
    let g = register_frame(0x00a20005, &exact);
    assert_eq!(g[5], 16);
    assert_eq!(&g[6..22], &exact[..]);
}

#[test]
fn motor_bit_on_then_off() {
    let frame = vec![0x11u8, 0x20, 0x07];
    let mut on = frame.clone();
    stamp_motor(&mut on, true);
    let mut off = frame.clone();
    stamp_motor(&mut off, false);
    assert_eq!(on, vec![0x11, 0x21, 0x07]);
    assert_eq!(off, vec![0x11, 0x20, 0x07]);
    assert_ne!(on[1] & 1, off[1] & 1);
    let mut set = vec![0x10u8, 0x01];
    stamp_motor(&mut set, false);
    assert_eq!(set, vec![0x10, 0x00]);
}

fn all_audio_frames(audio: &[u8]) -> Vec<Vec<u8>> {
    (0..audio_frames_needed(audio.len())).map(|k| audio_frame(audio, k)).collect()
}

#[test]
fn audio_frame_count() {
    assert_eq!(audio_frames_needed(0), 0);
    assert_eq!(audio_frames_needed(1), 1);
    assert_eq!(audio_frames_needed(20), 1);
    assert_eq!(audio_frames_needed(21), 2);
    assert_eq!(audio_frames_needed(40), 2);
    assert_eq!(audio_frames_needed(45), 3);
}

#[test]
fn audio_frames_rebuild_input() {
    let audio: Vec<u8> = (0..45u8).map(|i| i.wrapping_mul(7).wrapping_add(1)).collect();
    let frames = all_audio_frames(&audio);
    assert_eq!(frames.len(), 3);
    let mut joined = Vec::new();
    for f in &frames {
        assert_eq!(f.len(), 22);
        assert_eq!(f[0], 0x18);
        let n = (f[1] >> 3) as usize;
        joined.extend_from_slice(&f[2..2 + n]);
        assert!(f[2 + n..].iter().all(|&b| b == 0));
    }
    assert_eq!(joined, audio);
    assert_eq!(frames[0][1], (AUDIO_CHUNK as u8) << 3);
    assert_eq!(frames[2][1], 5 << 3);
    assert_eq!(&frames[2][2..7], &audio[40..45]);
}

#[test]
fn audio_empty_input() {
    assert!(all_audio_frames(&[]).is_empty());
}

#[test]
fn dice_trigger_fires_once() {
    let first = parse_core_input(&[0x31, 0x00, 0x08, 0x00, 0x00, 0xC8]).unwrap();
    let second = parse_core_input(&[0x31, 0x00, 0x08, 0x00, 0x00, 0xC9]).unwrap();
    assert!(first.buttons.contains_button(Button::A));
    assert_eq!(first.z, 200);
    assert_eq!(second.z, 201);
    let mut prev_z = 0u8;
    let mut crossings = 0;
    for r in [first, second] {
        if r.buttons.contains_button(Button::A) && rose_above(prev_z, r.z, 200) {
            crossings += 1;
        }
        prev_z = r.z;
    }
    assert_eq!(crossings, 1);
}

#[test]
fn parse_rejects_other_reports() {
    assert_eq!(parse_core_input(&[0x30, 0x00, 0x08, 0x00, 0x00, 0xC8]), None);
    assert_eq!(parse_core_input(&[0x31, 0x00, 0x08, 0x00, 0x00]), None);
    let r = parse_core_input(&[0x31, 0x10, 0x80, 0x01, 0x02, 0x03, 0xff]).unwrap();
    assert_eq!((r.x, r.y, r.z), (1, 2, 3));
    assert!(r.buttons.contains_button(Button::Plus));
    assert!(r.buttons.contains_button(Button::Home));
}
