//! Decoding of the two-byte button bitfield into a set of named buttons.

use vstd::prelude::*;

verus! {

/// Every bit that names a button; the device may set others, which are dropped.
pub const KNOWN_BITS: u16 = 0x1f9f;

/// Two bytes read as one big-endian 16-bit value.
pub open spec fn be16(hi: u8, lo: u8) -> u16 {
    ((hi as u16) << 8u16) | (lo as u16)
}

/// A set of pressed buttons, held as a bitmask of the known button bits.
#[derive(Clone, Copy, Debug, PartialEq, Eq, Structural)]
pub struct ButtonFlags {
    bits: u16,
}

/// Why a button bitfield could not be decoded.
#[derive(Clone, Copy, Debug, PartialEq, Eq, Structural)]
pub enum DecodeError {
    /// Fewer than two bytes were supplied.
    MalformedInput,
}

/// The mask of bit `first` of the first (high) byte.
pub fn fb(first: u8) -> (r: u16)
    requires
        first < 8,
    ensures
        r == 1u16 << ((first + 8) as u16),
{
    let r: u16 = 1u16 << ((first + 8) as u16);
    r
}

/// The mask of bit `second` of the second (low) byte.
pub fn sb(second: u8) -> (r: u16)
    requires
        second < 8,
    ensures
        r == 1u16 << (second as u16),
{
    let r: u16 = 1u16 << (second as u16);
    r
}

/// A named button of the controller.
#[derive(Clone, Copy, Debug, PartialEq, Eq, Structural)]
pub enum Button {
    DPadLeft,
    DPadRight,
    DPadDown,
    DPadUp,
    Plus,
    Two,
    One,
    B,
    A,
    Minus,
    Home,
}

impl Button {
    /// The bit that stands for this button in the 16-bit field.
    pub open spec fn spec_mask(self) -> u16 {
        match self {
            Button::DPadLeft => 0x0100,
            Button::DPadRight => 0x0200,
            Button::DPadDown => 0x0400,
            Button::DPadUp => 0x0800,
            Button::Plus => 0x1000,
            Button::Two => 0x0001,
            Button::One => 0x0002,
            Button::B => 0x0004,
            Button::A => 0x0008,
            Button::Minus => 0x0010,
            Button::Home => 0x0080,
        }
    }

    pub fn mask(self) -> (r: u16)
        ensures
            r == self.spec_mask(),
    {
        let r = match self {
            Button::DPadLeft => fb(0),
            Button::DPadRight => fb(1),
            Button::DPadDown => fb(2),
            Button::DPadUp => fb(3),
            Button::Plus => fb(4),
            Button::Two => sb(0),
            Button::One => sb(1),
            Button::B => sb(2),
            Button::A => sb(3),
            Button::Minus => sb(4),
            Button::Home => sb(7),
        };
        assert(
            1u16 << 8u16 == 0x0100u16 &&
            1u16 << 9u16 == 0x0200u16 &&
            1u16 << 10u16 == 0x0400u16 &&
            1u16 << 11u16 == 0x0800u16 &&
            1u16 << 12u16 == 0x1000u16 &&
            1u16 << 0u16 == 0x0001u16 &&
            1u16 << 1u16 == 0x0002u16 &&
            1u16 << 2u16 == 0x0004u16 &&
            1u16 << 3u16 == 0x0008u16 &&
            1u16 << 4u16 == 0x0010u16 &&
            1u16 << 7u16 == 0x0080u16
        ) by (bit_vector);
        r
    }
}

/// Each button's bit is one of the known bits.
proof fn lemma_mask_known(b: Button)
    ensures
        b.spec_mask() & KNOWN_BITS == b.spec_mask(),
{
    assert(
        0x0100u16 & 0x1f9fu16 == 0x0100u16 &&
        0x0200u16 & 0x1f9fu16 == 0x0200u16 &&
        0x0400u16 & 0x1f9fu16 == 0x0400u16 &&
        0x0800u16 & 0x1f9fu16 == 0x0800u16 &&
        0x1000u16 & 0x1f9fu16 == 0x1000u16 &&
        0x0001u16 & 0x1f9fu16 == 0x0001u16 &&
        0x0002u16 & 0x1f9fu16 == 0x0002u16 &&
        0x0004u16 & 0x1f9fu16 == 0x0004u16 &&
        0x0008u16 & 0x1f9fu16 == 0x0008u16 &&
        0x0010u16 & 0x1f9fu16 == 0x0010u16 &&
        0x0080u16 & 0x1f9fu16 == 0x0080u16
    ) by (bit_vector);
}

impl ButtonFlags {
    /// The raw bitmask of the set.
    pub closed spec fn view_bits(self) -> u16 {
        self.bits
    }

    /// The high byte of the encoded field.
    pub open spec fn spec_high_byte(self) -> u8 {
        (self.view_bits() >> 8u16) as u8
    }

    /// The low byte of the encoded field.
    pub open spec fn spec_low_byte(self) -> u8 {
        (self.view_bits() & 0xffu16) as u8
    }

    /// Only known button bits are set.
    pub open spec fn wf(self) -> bool {
        self.view_bits() & !KNOWN_BITS == 0
    }

    /// The set holds every button of `other`.
    pub open spec fn spec_contains(self, other: ButtonFlags) -> bool {
        self.view_bits() & other.view_bits() == other.view_bits()
    }

    pub fn bits(&self) -> (r: u16)
        ensures
            r == self.view_bits(),
    {
        self.bits
    }

    /// The set of known buttons whose bits are set in `bits`; other bits are dropped.
    pub fn from_bits_truncate(bits: u16) -> (r: ButtonFlags)
        ensures
            r.view_bits() == bits & KNOWN_BITS,
            r.wf(),
    {
        let r = ButtonFlags { bits: bits & KNOWN_BITS };
        assert(bits & 0x1f9fu16 & !0x1f9fu16 == 0) by (bit_vector);
        r
    }

    /// No button pressed.
    pub fn empty() -> (r: ButtonFlags)
        ensures
            r.view_bits() == 0,
            r.wf(),
    {
        assert(0u16 & !0x1f9fu16 == 0) by (bit_vector);
        ButtonFlags { bits: 0 }
    }

    /// Every known button pressed.
    pub fn all() -> (r: ButtonFlags)
        ensures
            r.view_bits() == KNOWN_BITS,
            r.wf(),
    {
        assert(0x1f9fu16 & !0x1f9fu16 == 0) by (bit_vector);
        ButtonFlags { bits: KNOWN_BITS }
    }

    pub fn is_empty(&self) -> (r: bool)
        ensures
            r == (self.view_bits() == 0),
    {
        self.bits == 0
    }

    /// Every button of `other` is in the set.
    pub fn contains(&self, other: ButtonFlags) -> (r: bool)
        ensures
            r == self.spec_contains(other),
    {
        self.bits & other.bits == other.bits
    }

    /// The set holding `b` alone.
    pub fn button(b: Button) -> (r: ButtonFlags)
        ensures
            r.view_bits() == b.spec_mask(),
            r.wf(),
    {
        let m = b.mask();
        proof {
            lemma_mask_known(b);
        }
        ButtonFlags::from_bits_truncate(m)
    }

    /// Whether `b` is pressed.
    pub fn contains_button(&self, b: Button) -> (r: bool)
        ensures
            r == (self.view_bits() & b.spec_mask() != 0),
    {
        let m = b.mask();
        self.bits & m != 0
    }

    /// Buttons in either set.
    pub fn union(&self, other: ButtonFlags) -> (r: ButtonFlags)
        requires
            self.wf(),
            other.wf(),
        ensures
            r.view_bits() == self.view_bits() | other.view_bits(),
            r.wf(),
    {
        let a = self.bits;
        let b = other.bits;
        assert(a & !0x1f9fu16 == 0 && b & !0x1f9fu16 == 0 ==> (a | b) & !0x1f9fu16 == 0)
            by (bit_vector);
        ButtonFlags { bits: a | b }
    }

    /// Buttons in this set and absent from `old`: those pressed since `old` was read.
    pub fn difference(&self, old: ButtonFlags) -> (r: ButtonFlags)
        requires
            self.wf(),
        ensures
            r.view_bits() == self.view_bits() & !old.view_bits(),
            r.wf(),
    {
        let a = self.bits;
        let b = old.bits;
        assert(a & !0x1f9fu16 == 0 ==> (a & !b) & !0x1f9fu16 == 0) by (bit_vector);
        ButtonFlags { bits: a & !b }
    }

    /// The two bytes, high first, that decode to this set.
    pub fn to_bytes(&self) -> (r: [u8; 2])
        ensures
            r[0] == self.spec_high_byte(),
            r[1] == self.spec_low_byte(),
    {
        let v = self.bits;
        let hi = (v >> 8u16) as u8;
        let lo = (v & 0xffu16) as u8;
        [hi, lo]
    }

    /// Decodes the first two bytes of `bytes`, high byte first, keeping only
    /// the known button bits.
    pub fn from_bytes(bytes: &[u8]) -> (r: Result<ButtonFlags, DecodeError>)
        ensures
            bytes@.len() < 2 <==> r is Err,
            r matches Err(e) ==> e == DecodeError::MalformedInput,
            r matches Ok(f) ==> f.wf() && f.view_bits() == be16(bytes@[0], bytes@[1]) & KNOWN_BITS,
    {
        if bytes.len() < 2 {
            return Err(DecodeError::MalformedInput);
        }
        let hi = bytes[0];
        let lo = bytes[1];
        let raw: u16 = ((hi as u16) << 8u16) | (lo as u16);
        Ok(ButtonFlags::from_bits_truncate(raw))
    }
}

/// Encoding a well-formed set and decoding the two bytes gives the set back.
pub proof fn lemma_decode_encode(f: ButtonFlags)
    requires
        f.wf(),
    ensures
        be16(f.spec_high_byte(), f.spec_low_byte()) & KNOWN_BITS == f.view_bits(),
{
    let v = f.view_bits();
    assert(v & !0x1f9fu16 == 0 ==> (((((v >> 8u16) as u8) as u16) << 8u16) | (((v & 0xffu16) as u8)
        as u16)) & 0x1f9fu16 == v) by (bit_vector);
}

/// A set minus itself is empty: with no change between two reads, nothing was
/// just pressed.
pub proof fn lemma_difference_self(a: ButtonFlags)
    ensures
        a.view_bits() & !a.view_bits() == 0,
{
    let v = a.view_bits();
    assert(v & !v == 0) by (bit_vector);
}

/// Adding the buttons of `b` to `a` and taking away those of `a` leaves at least
/// the buttons of `b` that are not in `a`.
pub proof fn lemma_difference_covers(a: ButtonFlags, b: ButtonFlags)
    ensures
        ((a.view_bits() | b.view_bits()) & !a.view_bits()) & (b.view_bits() & !a.view_bits()) == (
        b.view_bits() & !a.view_bits()),
{
    let x = a.view_bits();
    let y = b.view_bits();
    assert(((x | y) & !x) & (y & !x) == (y & !x)) by (bit_vector);
}

} // verus!
