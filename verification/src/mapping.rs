//! Bitmap codec: conversion between the controller's 32-bit bitmaps and
//! sextet-stream lines, and the fixed table mapping logical cabinet-light
//! identities to physical hardware bits.
//!
//! Outbound button lines are made printable with the transform
//! `((b + 0x10) & 0x3F) + 0x30`, which is a bijection from `0x00..=0x3F`
//! onto `0x30..=0x6F`. Inbound light lines are read as raw sub-bit flags;
//! no inverse transform is applied on that path.

use vstd::prelude::*;

verus! {

/// The closed, ordered set of logical button/light identities carried by the
/// stream protocol. The ordinal position of a variant is its stream index;
/// only a few variants are wired to a hardware bit (see [`light_hw_mask`]).
#[derive(Debug, PartialEq, Eq, Structural, Clone, Copy)]
pub enum CabinetLight {
    MarqueeUpperLeft,
    MarqueeUpperRight,
    MarqueeLowerLeft,
    MarqueeLowerRight,
    BassLeft,
    BassRight,
    Player1MenuLeft,
    Player1MenuRight,
    Player1MenuUp,
    Player1MenuDown,
    Player1Start,
    Player1Select,
    Player1Back,
    Player1Coin,
    Player1Operator,
    Player1EffectUp,
    Player1EffectDown,
    Player1Reserved1,
    Player1PadLeft,
    Player1PadRight,
    Player1PadUp,
    Player1PadDown,
    Player1PadUpLeft,
    Player1PadUpRight,
    Player1PadCentre,
    Player1PadDownLeft,
    Player1PadDownRight,
    Player1Light10,
    Player1Light11,
    Player1Light12,
    Player1Light13,
    Player1Light14,
    Player1Light15,
    Player1Light16,
    Player1Light17,
    Player1Light18,
    Player1Light19,
    Player1Reserved2,
    Player1Reserved3,
    Player1Reserved4,
    Player1Reserved5,
    Player1Reserved6,
    Player2MenuLeft,
    Player2MenuRight,
    Player2MenuUp,
    Player2MenuDown,
    Player2Start,
    Player2Select,
    Player2Back,
    Player2Coin,
    Player2Operator,
    Player2EffectUp,
    Player2EffectDown,
    Player2Reserved1,
    Player2PadLeft,
    Player2PadRight,
    Player2PadUp,
    Player2PadDown,
    Player2PadUpLeft,
    Player2PadUpRight,
    Player2PadCentre,
    Player2PadDownLeft,
    Player2PadDownRight,
    Player2Light10,
    Player2Light11,
    Player2Light12,
    Player2Light13,
    Player2Light14,
    Player2Light15,
    Player2Light16,
    Player2Light17,
    Player2Light18,
    Player2Light19,
    Player2Reserved2,
    Player2Reserved3,
    Player2Reserved4,
    Player2Reserved5,
    Player2Reserved6,
}

/// The fixed logical-to-physical table: the hardware bit of each wired
/// identity, as a one-bit mask. Identities with no hardware bit map to 0.
/// Both bass identities alias hardware bit 15.
pub open spec fn light_hw_mask(l: CabinetLight) -> u32 {
    match l {
        CabinetLight::MarqueeUpperLeft => 0x0100u32,
        CabinetLight::MarqueeUpperRight => 0x0400u32,
        CabinetLight::MarqueeLowerLeft => 0x0200u32,
        CabinetLight::MarqueeLowerRight => 0x0800u32,
        CabinetLight::BassLeft => 0x8000u32,
        CabinetLight::BassRight => 0x8000u32,
        CabinetLight::Player1Start => 0x2000u32,
        CabinetLight::Player1PadLeft => 0x0002u32,
        CabinetLight::Player1PadRight => 0x0001u32,
        CabinetLight::Player1PadUp => 0x0008u32,
        CabinetLight::Player1PadDown => 0x0004u32,
        CabinetLight::Player2Start => 0x1000u32,
        CabinetLight::Player2PadLeft => 0x0020u32,
        CabinetLight::Player2PadRight => 0x0010u32,
        CabinetLight::Player2PadUp => 0x0080u32,
        CabinetLight::Player2PadDown => 0x0040u32,
        _ => 0u32,
    }
}

/// The identity at a given stream index (its ordinal position), if any.
pub open spec fn light_of_index(i: int) -> Option<CabinetLight> {
    if i == 0 {
        Some(CabinetLight::MarqueeUpperLeft)
    } else if i == 1 {
        Some(CabinetLight::MarqueeUpperRight)
    } else if i == 2 {
        Some(CabinetLight::MarqueeLowerLeft)
    } else if i == 3 {
        Some(CabinetLight::MarqueeLowerRight)
    } else if i == 4 {
        Some(CabinetLight::BassLeft)
    } else if i == 5 {
        Some(CabinetLight::BassRight)
    } else if i == 6 {
        Some(CabinetLight::Player1MenuLeft)
    } else if i == 7 {
        Some(CabinetLight::Player1MenuRight)
    } else if i == 8 {
        Some(CabinetLight::Player1MenuUp)
    } else if i == 9 {
        Some(CabinetLight::Player1MenuDown)
    } else if i == 10 {
        Some(CabinetLight::Player1Start)
    } else if i == 11 {
        Some(CabinetLight::Player1Select)
    } else if i == 12 {
        Some(CabinetLight::Player1Back)
    } else if i == 13 {
        Some(CabinetLight::Player1Coin)
    } else if i == 14 {
        Some(CabinetLight::Player1Operator)
    } else if i == 15 {
        Some(CabinetLight::Player1EffectUp)
    } else if i == 16 {
        Some(CabinetLight::Player1EffectDown)
    } else if i == 17 {
        Some(CabinetLight::Player1Reserved1)
    } else if i == 18 {
        Some(CabinetLight::Player1PadLeft)
    } else if i == 19 {
        Some(CabinetLight::Player1PadRight)
    } else if i == 20 {
        Some(CabinetLight::Player1PadUp)
    } else if i == 21 {
        Some(CabinetLight::Player1PadDown)
    } else if i == 22 {
        Some(CabinetLight::Player1PadUpLeft)
    } else if i == 23 {
        Some(CabinetLight::Player1PadUpRight)
    } else if i == 24 {
        Some(CabinetLight::Player1PadCentre)
    } else if i == 25 {
        Some(CabinetLight::Player1PadDownLeft)
    } else if i == 26 {
        Some(CabinetLight::Player1PadDownRight)
    } else if i == 27 {
        Some(CabinetLight::Player1Light10)
    } else if i == 28 {
        Some(CabinetLight::Player1Light11)
    } else if i == 29 {
        Some(CabinetLight::Player1Light12)
    } else if i == 30 {
        Some(CabinetLight::Player1Light13)
    } else if i == 31 {
        Some(CabinetLight::Player1Light14)
    } else if i == 32 {
        Some(CabinetLight::Player1Light15)
    } else if i == 33 {
        Some(CabinetLight::Player1Light16)
    } else if i == 34 {
        Some(CabinetLight::Player1Light17)
    } else if i == 35 {
        Some(CabinetLight::Player1Light18)
    } else if i == 36 {
        Some(CabinetLight::Player1Light19)
    } else if i == 37 {
        Some(CabinetLight::Player1Reserved2)
    } else if i == 38 {
        Some(CabinetLight::Player1Reserved3)
    } else if i == 39 {
        Some(CabinetLight::Player1Reserved4)
    } else if i == 40 {
        Some(CabinetLight::Player1Reserved5)
    } else if i == 41 {
        Some(CabinetLight::Player1Reserved6)
    } else if i == 42 {
        Some(CabinetLight::Player2MenuLeft)
    } else if i == 43 {
        Some(CabinetLight::Player2MenuRight)
    } else if i == 44 {
        Some(CabinetLight::Player2MenuUp)
    } else if i == 45 {
        Some(CabinetLight::Player2MenuDown)
    } else if i == 46 {
        Some(CabinetLight::Player2Start)
    } else if i == 47 {
        Some(CabinetLight::Player2Select)
    } else if i == 48 {
        Some(CabinetLight::Player2Back)
    } else if i == 49 {
        Some(CabinetLight::Player2Coin)
    } else if i == 50 {
        Some(CabinetLight::Player2Operator)
    } else if i == 51 {
        Some(CabinetLight::Player2EffectUp)
    } else if i == 52 {
        Some(CabinetLight::Player2EffectDown)
    } else if i == 53 {
        Some(CabinetLight::Player2Reserved1)
    } else if i == 54 {
        Some(CabinetLight::Player2PadLeft)
    } else if i == 55 {
        Some(CabinetLight::Player2PadRight)
    } else if i == 56 {
        Some(CabinetLight::Player2PadUp)
    } else if i == 57 {
        Some(CabinetLight::Player2PadDown)
    } else if i == 58 {
        Some(CabinetLight::Player2PadUpLeft)
    } else if i == 59 {
        Some(CabinetLight::Player2PadUpRight)
    } else if i == 60 {
        Some(CabinetLight::Player2PadCentre)
    } else if i == 61 {
        Some(CabinetLight::Player2PadDownLeft)
    } else if i == 62 {
        Some(CabinetLight::Player2PadDownRight)
    } else if i == 63 {
        Some(CabinetLight::Player2Light10)
    } else if i == 64 {
        Some(CabinetLight::Player2Light11)
    } else if i == 65 {
        Some(CabinetLight::Player2Light12)
    } else if i == 66 {
        Some(CabinetLight::Player2Light13)
    } else if i == 67 {
        Some(CabinetLight::Player2Light14)
    } else if i == 68 {
        Some(CabinetLight::Player2Light15)
    } else if i == 69 {
        Some(CabinetLight::Player2Light16)
    } else if i == 70 {
        Some(CabinetLight::Player2Light17)
    } else if i == 71 {
        Some(CabinetLight::Player2Light18)
    } else if i == 72 {
        Some(CabinetLight::Player2Light19)
    } else if i == 73 {
        Some(CabinetLight::Player2Reserved2)
    } else if i == 74 {
        Some(CabinetLight::Player2Reserved3)
    } else if i == 75 {
        Some(CabinetLight::Player2Reserved4)
    } else if i == 76 {
        Some(CabinetLight::Player2Reserved5)
    } else if i == 77 {
        Some(CabinetLight::Player2Reserved6)
    } else {
        None
    }
}

/// The hardware mask contributed by stream index `i`: zero when the index is
/// out of range or names an unwired identity.
pub open spec fn stream_hw_mask(i: int) -> u32 {
    match light_of_index(i) {
        Some(l) => light_hw_mask(l),
        None => 0u32,
    }
}

proof fn lemma_low_bit_masks()
    ensures
        1u32 << 0u8 == 0x0001u32,
        1u32 << 1u8 == 0x0002u32,
        1u32 << 2u8 == 0x0004u32,
        1u32 << 3u8 == 0x0008u32,
        1u32 << 4u8 == 0x0010u32,
        1u32 << 5u8 == 0x0020u32,
        1u32 << 6u8 == 0x0040u32,
        1u32 << 7u8 == 0x0080u32,
        1u32 << 8u8 == 0x0100u32,
        1u32 << 9u8 == 0x0200u32,
        1u32 << 10u8 == 0x0400u32,
        1u32 << 11u8 == 0x0800u32,
        1u32 << 12u8 == 0x1000u32,
        1u32 << 13u8 == 0x2000u32,
        1u32 << 15u8 == 0x8000u32,
{
    assert(1u32 << 0u8 == 0x0001u32 && 1u32 << 1u8 == 0x0002u32 && 1u32 << 2u8 == 0x0004u32 && 1u32 << 3u8 == 0x0008u32 && 1u32 << 4u8 == 0x0010u32 && 1u32 << 5u8 == 0x0020u32 && 1u32 << 6u8 == 0x0040u32 && 1u32 << 7u8 == 0x0080u32 && 1u32 << 8u8 == 0x0100u32 && 1u32 << 9u8 == 0x0200u32 && 1u32 << 10u8 == 0x0400u32 && 1u32 << 11u8 == 0x0800u32 && 1u32 << 12u8 == 0x1000u32 && 1u32 << 13u8 == 0x2000u32 && 1u32 << 15u8 == 0x8000u32) by (bit_vector);
}

proof fn lemma_or_zero(a: u32)
    ensures
        a | 0u32 == a,
{
    assert(a | 0u32 == a) by (bit_vector);
}

proof fn lemma_or_assoc(a: u32, b: u32, c: u32)
    ensures
        (a | b) | c == a | (b | c),
{
    assert((a | b) | c == a | (b | c)) by (bit_vector);
}

impl CabinetLight {
    /// The identity whose stream index is `discriminant`, if in range.
    pub fn from_repr(discriminant: usize) -> (r: Option<CabinetLight>)
        ensures
            r == light_of_index(discriminant as int),
    {
        match discriminant {
            0 => Some(CabinetLight::MarqueeUpperLeft),
            1 => Some(CabinetLight::MarqueeUpperRight),
            2 => Some(CabinetLight::MarqueeLowerLeft),
            3 => Some(CabinetLight::MarqueeLowerRight),
            4 => Some(CabinetLight::BassLeft),
            5 => Some(CabinetLight::BassRight),
            6 => Some(CabinetLight::Player1MenuLeft),
            7 => Some(CabinetLight::Player1MenuRight),
            8 => Some(CabinetLight::Player1MenuUp),
            9 => Some(CabinetLight::Player1MenuDown),
            10 => Some(CabinetLight::Player1Start),
            11 => Some(CabinetLight::Player1Select),
            12 => Some(CabinetLight::Player1Back),
            13 => Some(CabinetLight::Player1Coin),
            14 => Some(CabinetLight::Player1Operator),
            15 => Some(CabinetLight::Player1EffectUp),
            16 => Some(CabinetLight::Player1EffectDown),
            17 => Some(CabinetLight::Player1Reserved1),
            18 => Some(CabinetLight::Player1PadLeft),
            19 => Some(CabinetLight::Player1PadRight),
            20 => Some(CabinetLight::Player1PadUp),
            21 => Some(CabinetLight::Player1PadDown),
            22 => Some(CabinetLight::Player1PadUpLeft),
            23 => Some(CabinetLight::Player1PadUpRight),
            24 => Some(CabinetLight::Player1PadCentre),
            25 => Some(CabinetLight::Player1PadDownLeft),
            26 => Some(CabinetLight::Player1PadDownRight),
            27 => Some(CabinetLight::Player1Light10),
            28 => Some(CabinetLight::Player1Light11),
            29 => Some(CabinetLight::Player1Light12),
            30 => Some(CabinetLight::Player1Light13),
            31 => Some(CabinetLight::Player1Light14),
            32 => Some(CabinetLight::Player1Light15),
            33 => Some(CabinetLight::Player1Light16),
            34 => Some(CabinetLight::Player1Light17),
            35 => Some(CabinetLight::Player1Light18),
            36 => Some(CabinetLight::Player1Light19),
            37 => Some(CabinetLight::Player1Reserved2),
            38 => Some(CabinetLight::Player1Reserved3),
            39 => Some(CabinetLight::Player1Reserved4),
            40 => Some(CabinetLight::Player1Reserved5),
            41 => Some(CabinetLight::Player1Reserved6),
            42 => Some(CabinetLight::Player2MenuLeft),
            43 => Some(CabinetLight::Player2MenuRight),
            44 => Some(CabinetLight::Player2MenuUp),
            45 => Some(CabinetLight::Player2MenuDown),
            46 => Some(CabinetLight::Player2Start),
            47 => Some(CabinetLight::Player2Select),
            48 => Some(CabinetLight::Player2Back),
            49 => Some(CabinetLight::Player2Coin),
            50 => Some(CabinetLight::Player2Operator),
            51 => Some(CabinetLight::Player2EffectUp),
            52 => Some(CabinetLight::Player2EffectDown),
            53 => Some(CabinetLight::Player2Reserved1),
            54 => Some(CabinetLight::Player2PadLeft),
            55 => Some(CabinetLight::Player2PadRight),
            56 => Some(CabinetLight::Player2PadUp),
            57 => Some(CabinetLight::Player2PadDown),
            58 => Some(CabinetLight::Player2PadUpLeft),
            59 => Some(CabinetLight::Player2PadUpRight),
            60 => Some(CabinetLight::Player2PadCentre),
            61 => Some(CabinetLight::Player2PadDownLeft),
            62 => Some(CabinetLight::Player2PadDownRight),
            63 => Some(CabinetLight::Player2Light10),
            64 => Some(CabinetLight::Player2Light11),
            65 => Some(CabinetLight::Player2Light12),
            66 => Some(CabinetLight::Player2Light13),
            67 => Some(CabinetLight::Player2Light14),
            68 => Some(CabinetLight::Player2Light15),
            69 => Some(CabinetLight::Player2Light16),
            70 => Some(CabinetLight::Player2Light17),
            71 => Some(CabinetLight::Player2Light18),
            72 => Some(CabinetLight::Player2Light19),
            73 => Some(CabinetLight::Player2Reserved2),
            74 => Some(CabinetLight::Player2Reserved3),
            75 => Some(CabinetLight::Player2Reserved4),
            76 => Some(CabinetLight::Player2Reserved5),
            77 => Some(CabinetLight::Player2Reserved6),
            _ => None,
        }
    }

    /// OR this identity's hardware bit, if it has one, into `bitmap`;
    /// unwired identities leave `bitmap` unchanged.
    pub fn add_to_itgio_bitmap(&self, bitmap: &mut u32)
        ensures
            *final(bitmap) == *old(bitmap) | light_hw_mask(*self),
    {
        let offset: u8 = match self {
            CabinetLight::MarqueeUpperLeft => 8,
            CabinetLight::MarqueeUpperRight => 10,
            CabinetLight::MarqueeLowerLeft => 9,
            CabinetLight::MarqueeLowerRight => 11,
            CabinetLight::BassLeft => 15,
            CabinetLight::BassRight => 15,
            CabinetLight::Player1Start => 13,
            CabinetLight::Player1PadLeft => 1,
            CabinetLight::Player1PadRight => 0,
            CabinetLight::Player1PadUp => 3,
            CabinetLight::Player1PadDown => 2,
            CabinetLight::Player2Start => 12,
            CabinetLight::Player2PadLeft => 5,
            CabinetLight::Player2PadRight => 4,
            CabinetLight::Player2PadUp => 7,
            CabinetLight::Player2PadDown => 6,
            _ => {
                proof {
                    lemma_or_zero(*bitmap);
                }
                return;
            },
        };
        proof {
            lemma_low_bit_masks();
        }
        *bitmap = *bitmap | (1u32 << offset);
    }
}

// ---------------------------------------------------------------------------
// Outbound path: button bitmap -> printable sextet line
// ---------------------------------------------------------------------------

/// Sextet `j` of the 16 button bits: bits `6*j .. 6*j+5` of the masked bitmap.
pub open spec fn sextet_of(bits: u32, j: int) -> u8 {
    if j == 0 {
        ((bits & 0xFFFF) & 0x3F) as u8
    } else if j == 1 {
        (((bits & 0xFFFF) >> 6u32) & 0x3F) as u8
    } else if j == 2 {
        (((bits & 0xFFFF) >> 12u32) & 0x3F) as u8
    } else {
        0u8
    }
}

/// The printable-character transform applied to every emitted sextet.
pub open spec fn printable(b: u8) -> u8 {
    (((((b as u32) + 0x10) as u32) & 0x3F) + 0x30) as u8
}

/// Number of bytes in the encoded line: index of the highest non-zero
/// sextet plus one, and zero for an all-zero bitmap.
pub open spec fn btn_line_len(bits: u32) -> int {
    if sextet_of(bits, 2) != 0 {
        3
    } else if sextet_of(bits, 1) != 0 {
        2
    } else if sextet_of(bits, 0) != 0 {
        1
    } else {
        0
    }
}

/// The full encoded button line for a bitmap.
pub open spec fn btn_line_spec(bits: u32) -> Seq<u8> {
    Seq::new(btn_line_len(bits) as nat, |j: int| printable(sextet_of(bits, j)))
}

fn transform_sextet(s: u8) -> (r: u8)
    requires
        s < 0x40,
    ensures
        r == printable(s),
        0x30 <= r <= 0x6F,
{
    let x: u32 = s as u32;
    let a: u32 = x + 0x10;
    let w: u32 = a & 0x3F;
    proof {
        assert(a & 0x3F <= 0x3F) by (bit_vector);
    }
    let y: u32 = w + 0x30;
    y as u8
}

/// Encode the low 16 bits of a button bitmap as a printable sextet line.
/// The line is empty exactly when no button bit is set, and every emitted
/// byte lies in the printable range `0x30..=0x6F`.
pub fn btn_bitmap_to_sextetstream(btns_bitmap: u32) -> (r: Vec<u8>)
    ensures
        r@ == btn_line_spec(btns_bitmap),
        r@.len() == 0 <==> btns_bitmap & 0xFFFF == 0,
        forall|i: int| 0 <= i < r@.len() ==> 0x30 <= #[trigger] r@[i] <= 0x6F,
{
    let b: u32 = btns_bitmap & 0xFFFF;
    let t0: u32 = b & 0x3F;
    let t1: u32 = (b >> 6u32) & 0x3F;
    let t2: u32 = (b >> 12u32) & 0x3F;
    proof {
        assert(b & 0x3F < 0x40 && (b >> 6u32) & 0x3F < 0x40 && (b >> 12u32) & 0x3F < 0x40)
            by (bit_vector);
    }
    let s0: u8 = t0 as u8;
    let s1: u8 = t1 as u8;
    let s2: u8 = t2 as u8;
    let n: usize = if s2 != 0 {
        3
    } else if s1 != 0 {
        2
    } else if s0 != 0 {
        1
    } else {
        0
    };
    let mut line: Vec<u8> = Vec::new();
    if n >= 1 {
        line.push(transform_sextet(s0));
    }
    if n >= 2 {
        line.push(transform_sextet(s1));
    }
    if n >= 3 {
        line.push(transform_sextet(s2));
    }
    proof {
        assert(s0 == sextet_of(btns_bitmap, 0));
        assert(s1 == sextet_of(btns_bitmap, 1));
        assert(s2 == sextet_of(btns_bitmap, 2));
        assert(n as int == btn_line_len(btns_bitmap));
        assert(line@ =~= btn_line_spec(btns_bitmap));
        assert((b & 0x3F == 0 && (b >> 6u32) & 0x3F == 0 && (b >> 12u32) & 0x3F == 0) <==> b == 0)
            by (bit_vector)
            requires
                b == btns_bitmap & 0xFFFF,
        ;
    }
    line
}

// ---------------------------------------------------------------------------
// Host-side inverse of the button path
// ---------------------------------------------------------------------------

/// Byte `j` of a line, reading absent positions as zero.
pub open spec fn line_byte(bytes: Seq<u8>, j: int) -> u8 {
    if 0 <= j < bytes.len() {
        bytes[j]
    } else {
        0u8
    }
}

/// The bitmap a host recovers from a button line: the low 6 bits of each
/// byte land at bit positions `6*j ..`, undoing the printable transform
/// (whose inverse on `0x30..=0x6F` is masking with `0x3F`).
pub open spec fn btn_decode_spec(bytes: Seq<u8>) -> u32 {
    ((line_byte(bytes, 0) as u32) & 0x3F) | (((line_byte(bytes, 1) as u32) & 0x3F) << 6u32)
        | (((line_byte(bytes, 2) as u32) & 0x3F) << 12u32) | (((line_byte(
        bytes,
        3,
    ) as u32) & 0x3F) << 18u32) | (((line_byte(bytes, 4) as u32) & 0x3F) << 24u32) | (((line_byte(
        bytes,
        5,
    ) as u32) & 0x03) << 30u32)
}

fn byte_at(bytes: &[u8], j: usize) -> (r: u8)
    ensures
        r == line_byte(bytes@, j as int),
{
    if j < bytes.len() {
        bytes[j]
    } else {
        0
    }
}

/// Decode a button line back into a bitmap, as a host consuming the
/// sextet stream does.
pub fn sextetstream_to_btn_bitmap(sextetstream_bytes: &[u8]) -> (r: u32)
    ensures
        r == btn_decode_spec(sextetstream_bytes@),
{
    let b0: u32 = byte_at(sextetstream_bytes, 0) as u32;
    let b1: u32 = byte_at(sextetstream_bytes, 1) as u32;
    let b2: u32 = byte_at(sextetstream_bytes, 2) as u32;
    let b3: u32 = byte_at(sextetstream_bytes, 3) as u32;
    let b4: u32 = byte_at(sextetstream_bytes, 4) as u32;
    let b5: u32 = byte_at(sextetstream_bytes, 5) as u32;
    (b0 & 0x3F) | ((b1 & 0x3F) << 6u32) | ((b2 & 0x3F) << 12u32) | ((b3 & 0x3F) << 18u32) | ((b4
        & 0x3F) << 24u32) | ((b5 & 0x03) << 30u32)
}

/// Round trip of the button path: decoding an encoded line restores
/// exactly the low 16 bits of the bitmap that was encoded.
pub proof fn lemma_button_round_trip(bits: u32)
    ensures
        btn_decode_spec(btn_line_spec(bits)) == bits & 0xFFFF,
{
    let line: Seq<u8> = btn_line_spec(bits);
    let b0: u8 = line_byte(line, 0);
    let b1: u8 = line_byte(line, 1);
    let b2: u8 = line_byte(line, 2);
    let b3: u8 = line_byte(line, 3);
    let b4: u8 = line_byte(line, 4);
    let b5: u8 = line_byte(line, 5);
    assert(b3 == 0 && b4 == 0 && b5 == 0);
    if btn_line_len(bits) == 3 {
        assert(b0 == printable(sextet_of(bits, 0)));
        assert(b1 == printable(sextet_of(bits, 1)));
        assert(b2 == printable(sextet_of(bits, 2)));
        assert(((b0 as u32) & 0x3F) | (((b1 as u32) & 0x3F) << 6u32) | (((b2 as u32) & 0x3F)
            << 12u32) | (((b3 as u32) & 0x3F) << 18u32) | (((b4 as u32) & 0x3F) << 24u32) | (((
        b5 as u32) & 0x03) << 30u32) == bits & 0xFFFF)
            by (bit_vector)
            requires
                b0 == printable(sextet_of(bits, 0)),
                b1 == printable(sextet_of(bits, 1)),
                b2 == printable(sextet_of(bits, 2)),
                b3 == 0u8,
                b4 == 0u8,
                b5 == 0u8,
        ;
    } else if btn_line_len(bits) == 2 {
        assert(b0 == printable(sextet_of(bits, 0)));
        assert(b1 == printable(sextet_of(bits, 1)));
        assert(b2 == 0);
        assert(((b0 as u32) & 0x3F) | (((b1 as u32) & 0x3F) << 6u32) | (((b2 as u32) & 0x3F)
            << 12u32) | (((b3 as u32) & 0x3F) << 18u32) | (((b4 as u32) & 0x3F) << 24u32) | (((
        b5 as u32) & 0x03) << 30u32) == bits & 0xFFFF)
            by (bit_vector)
            requires
                b0 == printable(sextet_of(bits, 0)),
                b1 == printable(sextet_of(bits, 1)),
                sextet_of(bits, 2) == 0u8,
                b2 == 0u8,
                b3 == 0u8,
                b4 == 0u8,
                b5 == 0u8,
        ;
    } else if btn_line_len(bits) == 1 {
        assert(b0 == printable(sextet_of(bits, 0)));
        assert(b1 == 0 && b2 == 0);
        assert(((b0 as u32) & 0x3F) | (((b1 as u32) & 0x3F) << 6u32) | (((b2 as u32) & 0x3F)
            << 12u32) | (((b3 as u32) & 0x3F) << 18u32) | (((b4 as u32) & 0x3F) << 24u32) | (((
        b5 as u32) & 0x03) << 30u32) == bits & 0xFFFF)
            by (bit_vector)
            requires
                b0 == printable(sextet_of(bits, 0)),
                sextet_of(bits, 1) == 0u8,
                sextet_of(bits, 2) == 0u8,
                b1 == 0u8,
                b2 == 0u8,
                b3 == 0u8,
                b4 == 0u8,
                b5 == 0u8,
        ;
    } else {
        assert(b0 == 0 && b1 == 0 && b2 == 0);
        assert(((b0 as u32) & 0x3F) | (((b1 as u32) & 0x3F) << 6u32) | (((b2 as u32) & 0x3F)
            << 12u32) | (((b3 as u32) & 0x3F) << 18u32) | (((b4 as u32) & 0x3F) << 24u32) | (((
        b5 as u32) & 0x03) << 30u32) == bits & 0xFFFF)
            by (bit_vector)
            requires
                sextet_of(bits, 0) == 0u8,
                sextet_of(bits, 1) == 0u8,
                sextet_of(bits, 2) == 0u8,
                b0 == 0u8,
                b1 == 0u8,
                b2 == 0u8,
                b3 == 0u8,
                b4 == 0u8,
                b5 == 0u8,
        ;
    }
}

// ---------------------------------------------------------------------------
// Inbound path: light line -> hardware bitmap
// ---------------------------------------------------------------------------

/// Whether bit `k` of a line byte is set.
pub open spec fn nth_bit(b: u8, k: int) -> bool {
    (b >> (k as u8)) & 1 == 1
}

/// Hardware mask contributed by sub-bit `k` of line byte `j`.
pub open spec fn bit_contrib(b: u8, j: int, k: int) -> u32 {
    if nth_bit(b, k) {
        stream_hw_mask(6 * j + k)
    } else {
        0u32
    }
}

/// Hardware mask contributed by the first `k` sub-bits of line byte `j`.
pub open spec fn byte_lights_upto(b: u8, j: int, k: int) -> u32
    decreases k,
{
    if k <= 0 {
        0u32
    } else {
        byte_lights_upto(b, j, k - 1) | bit_contrib(b, j, k - 1)
    }
}

/// Hardware mask contributed by the first `n` bytes of a light line.
pub open spec fn lights_prefix(bytes: Seq<u8>, n: int) -> u32
    decreases n,
{
    if n <= 0 {
        0u32
    } else {
        lights_prefix(bytes, n - 1) | byte_lights_upto(bytes[n - 1], n - 1, 6)
    }
}

/// The hardware light bitmap denoted by a whole light line.
pub open spec fn lights_spec(bytes: Seq<u8>) -> u32 {
    lights_prefix(bytes, bytes.len() as int)
}

/// Decode an inbound light line into a hardware bitmap. Each byte carries
/// six sub-bit flags read literally (no printable transform on this path);
/// each set flag at stream index `6*j + k` asserts the hardware bit of the
/// identity at that index, and unwired or out-of-range indices are ignored.
pub fn sextetstream_to_lights(sextetstream_bytes: &[u8]) -> (res: u32)
    ensures
        res == lights_spec(sextetstream_bytes@),
{
    let mut res: u32 = 0;
    let mut j: usize = 0;
    while j < sextetstream_bytes.len()
        invariant
            j <= sextetstream_bytes@.len(),
            res == lights_prefix(sextetstream_bytes@, j as int),
        decreases sextetstream_bytes@.len() - j,
    {
        let b: u8 = sextetstream_bytes[j];
        let ghost prefix: u32 = res;
        proof {
            lemma_or_zero(prefix);
        }
        let mut k: usize = 0;
        while k < 6
            invariant
                k <= 6,
                j < sextetstream_bytes@.len(),
                b == sextetstream_bytes@[j as int],
                prefix == lights_prefix(sextetstream_bytes@, j as int),
                res == prefix | byte_lights_upto(b, j as int, k as int),
            decreases 6 - k,
        {
            let kk: u8 = k as u8;
            proof {
                assert((b >> kk) & 1 == 0 || (b >> kk) & 1 == 1) by (bit_vector);
            }
            if (b >> kk) & 1 != 0 {
                if j <= 12 {
                    let idx: usize = j * 6 + k;
                    match CabinetLight::from_repr(idx) {
                        Some(light) => {
                            proof {
                                assert(stream_hw_mask(6 * (j as int) + (k as int))
                                    == light_hw_mask(light));
                                lemma_or_assoc(
                                    prefix,
                                    byte_lights_upto(b, j as int, k as int),
                                    light_hw_mask(light),
                                );
                            }
                            light.add_to_itgio_bitmap(&mut res);
                        },
                        None => {
                            proof {
                                lemma_or_zero(byte_lights_upto(b, j as int, k as int));
                            }
                        },
                    }
                } else {
                    proof {
                        assert(6 * (j as int) + (k as int) >= 78);
                        assert(stream_hw_mask(6 * (j as int) + (k as int)) == 0);
                        lemma_or_zero(byte_lights_upto(b, j as int, k as int));
                    }
                }
            } else {
                proof {
                    lemma_or_zero(byte_lights_upto(b, j as int, k as int));
                }
            }
            k = k + 1;
        }
        j = j + 1;
    }
    res
}

// ---------------------------------------------------------------------------
// Unwired identities never reach the hardware
// ---------------------------------------------------------------------------

proof fn lemma_and_with_zero(m: u32)
    ensures
        0u32 & m == 0,
{
    assert(0u32 & m == 0) by (bit_vector);
}

proof fn lemma_or_preserves_clear(a: u32, b: u32, m: u32)
    requires
        a & m == 0,
        b & m == 0,
    ensures
        (a | b) & m == 0,
{
    assert((a | b) & m == 0) by (bit_vector)
        requires
            a & m == 0,
            b & m == 0,
    ;
}

proof fn lemma_mask_table_clear()
    ensures
        forall|i: int| #[trigger] stream_hw_mask(i) & 0xFFFF_4000u32 == 0,
{
    assert(0x0001u32 & 0xFFFF_4000u32 == 0 && 0x0002u32 & 0xFFFF_4000u32 == 0 && 0x0004u32 & 0xFFFF_4000u32 == 0 && 0x0008u32 & 0xFFFF_4000u32 == 0 && 0x0010u32 & 0xFFFF_4000u32 == 0 && 0x0020u32 & 0xFFFF_4000u32 == 0 && 0x0040u32 & 0xFFFF_4000u32 == 0 && 0x0080u32 & 0xFFFF_4000u32 == 0 && 0x0100u32 & 0xFFFF_4000u32 == 0 && 0x0200u32 & 0xFFFF_4000u32 == 0 && 0x0400u32 & 0xFFFF_4000u32 == 0 && 0x0800u32 & 0xFFFF_4000u32 == 0 && 0x1000u32 & 0xFFFF_4000u32 == 0 && 0x2000u32 & 0xFFFF_4000u32 == 0 && 0x8000u32 & 0xFFFF_4000u32 == 0) by (bit_vector);
    lemma_and_with_zero(0xFFFF_4000u32);
}

proof fn lemma_byte_clear(b: u8, j: int, k: int)
    ensures
        byte_lights_upto(b, j, k) & 0xFFFF_4000u32 == 0,
    decreases k,
{
    lemma_mask_table_clear();
    if k <= 0 {
        lemma_and_with_zero(0xFFFF_4000u32);
    } else {
        lemma_byte_clear(b, j, k - 1);
        lemma_and_with_zero(0xFFFF_4000u32);
        lemma_or_preserves_clear(
            byte_lights_upto(b, j, k - 1),
            bit_contrib(b, j, k - 1),
            0xFFFF_4000u32,
        );
    }
}

proof fn lemma_prefix_clear(bytes: Seq<u8>, n: int)
    ensures
        lights_prefix(bytes, n) & 0xFFFF_4000u32 == 0,
    decreases n,
{
    if n <= 0 {
        lemma_and_with_zero(0xFFFF_4000u32);
    } else {
        lemma_prefix_clear(bytes, n - 1);
        lemma_byte_clear(bytes[n - 1], n - 1, 6);
        lemma_or_preserves_clear(
            lights_prefix(bytes, n - 1),
            byte_lights_upto(bytes[n - 1], n - 1, 6),
            0xFFFF_4000u32,
        );
    }
}

/// Identities without a hardware bit never contribute to a decoded light
/// bitmap: every decoded bitmap is confined to the wired hardware bits,
/// which all lie inside the mask `0x0000_BFFF`.
pub proof fn lemma_unwired_bits_stay_clear(bytes: Seq<u8>)
    ensures
        lights_spec(bytes) & 0xFFFF_4000u32 == 0,
{
    lemma_prefix_clear(bytes, bytes.len() as int);
}

} // verus!
