use itgio_bridge::mapping::btn_bitmap_to_sextetstream;
use itgio_bridge::mapping::sextetstream_to_btn_bitmap;
use itgio_bridge::mapping::sextetstream_to_lights;
use itgio_bridge::mapping::CabinetLight;

#[test]
fn encode_zero_is_empty() {
    let line = btn_bitmap_to_sextetstream(0);
    assert_eq!(line.len(), 0);
}

#[test]
fn encode_single_low_bit() {
    // Bit 0 set: raw sextet 0b000001, printable ((1 + 0x10) & 0x3F) + 0x30.
    let line = btn_bitmap_to_sextetstream(0x0000_0001);
    assert_eq!(line, vec![0x41]);
}

#[test]
fn encode_player1_pad_left_press() {
    // Button state went from idle to hardware bit 1: the emitted line has a
    // single payload byte whose raw sextet, after reversing the printable
    // transform, is 0b000010.
    let line = btn_bitmap_to_sextetstream(0x0000_0002);
    assert_eq!(line.len(), 1);
    assert_eq!(line[0] & 0x3F, 0b000010);
    assert_eq!(line[0], ((0b000010 + 0x10) & 0x3F) + 0x30);
}

#[test]
fn encode_all_sixteen_bits() {
    // Sextets 0x3F, 0x3F, 0x0F; transformed: 0x3F, 0x3F, 0x4F.
    let line = btn_bitmap_to_sextetstream(0xFFFF);
    assert_eq!(line, vec![0x3F, 0x3F, 0x4F]);
}

#[test]
fn encode_truncates_to_highest_nonzero_sextet() {
    // Only bit 6 set: two bytes, the first a transformed zero sextet.
    let line = btn_bitmap_to_sextetstream(0x0040);
    assert_eq!(line, vec![0x40, 0x41]);
}

#[test]
fn encode_ignores_bits_above_fifteen() {
    let line = btn_bitmap_to_sextetstream(0xFFFF_0000);
    assert_eq!(line.len(), 0);
}

#[test]
fn encode_stays_printable() {
    let samples: [u32; 8] = [0x0001, 0x0002, 0x8000, 0xFFFF, 0xABCD, 0x5555, 0xAAAA, 0x1234];
    for bits in samples {
        for b in btn_bitmap_to_sextetstream(bits) {
            assert!((0x30..=0x6F).contains(&b));
        }
    }
}

#[test]
fn button_round_trip_restores_low_sixteen_bits() {
    let samples: [u32; 9] =
        [0, 0x0001, 0x0002, 0x8000, 0xFFFF, 0xABCD, 0x5555, 0x1_0001, 0xFFFF_FFFF];
    for bits in samples {
        let line = btn_bitmap_to_sextetstream(bits);
        assert_eq!(sextetstream_to_btn_bitmap(&line), bits & 0xFFFF);
    }
}

#[test]
fn decode_lights_marquee_upper_right() {
    // Byte 0 bit 1 is stream index 1, MarqueeUpperRight, hardware bit 10.
    assert_eq!(sextetstream_to_lights(&[0x02]), 1 << 10);
}

#[test]
fn decode_lights_marquee_upper_left() {
    assert_eq!(sextetstream_to_lights(&[0x01]), 1 << 8);
}

#[test]
fn decode_lights_player1_pad_left() {
    // Stream index 18 = byte 3, bit 0: Player1PadLeft, hardware bit 1.
    assert_eq!(sextetstream_to_lights(&[0x00, 0x00, 0x00, 0x01]), 1 << 1);
}

#[test]
fn decode_lights_unwired_identity_sets_nothing() {
    // Stream index 6 (byte 1, bit 0) is Player1MenuLeft, which has no
    // hardware bit.
    assert_eq!(sextetstream_to_lights(&[0x00, 0x01]), 0);
}

#[test]
fn decode_lights_ignores_out_of_range_indices() {
    // 20 bytes reach far past the last identity; high ones contribute
    // nothing.
    let mut bytes = [0x3Fu8; 20];
    bytes[0] = 0;
    let with_tail = sextetstream_to_lights(&bytes);
    let without_tail = sextetstream_to_lights(&bytes[..13]);
    assert_eq!(with_tail, without_tail);
}

#[test]
fn decode_lights_empty_line() {
    assert_eq!(sextetstream_to_lights(&[]), 0);
}

#[test]
fn decode_lights_bass_aliases_one_bit() {
    // BassLeft (index 4) and BassRight (index 5) both drive hardware
    // bit 15.
    assert_eq!(sextetstream_to_lights(&[0x10]), 1 << 15);
    assert_eq!(sextetstream_to_lights(&[0x20]), 1 << 15);
    assert_eq!(sextetstream_to_lights(&[0x30]), 1 << 15);
}

#[test]
fn from_repr_covers_exactly_the_identity_range() {
    assert_eq!(CabinetLight::from_repr(0), Some(CabinetLight::MarqueeUpperLeft));
    assert_eq!(CabinetLight::from_repr(1), Some(CabinetLight::MarqueeUpperRight));
    assert_eq!(CabinetLight::from_repr(10), Some(CabinetLight::Player1Start));
    assert_eq!(CabinetLight::from_repr(18), Some(CabinetLight::Player1PadLeft));
    assert_eq!(CabinetLight::from_repr(46), Some(CabinetLight::Player2Start));
    assert_eq!(CabinetLight::from_repr(77), Some(CabinetLight::Player2Reserved6));
    assert_eq!(CabinetLight::from_repr(78), None);
    assert_eq!(CabinetLight::from_repr(usize::MAX), None);
}

#[test]
fn mapping_table_is_exact() {
    let wired: [(CabinetLight, u32); 16] = [
        (CabinetLight::MarqueeUpperLeft, 8),
        (CabinetLight::MarqueeLowerLeft, 9),
        (CabinetLight::MarqueeUpperRight, 10),
        (CabinetLight::MarqueeLowerRight, 11),
        (CabinetLight::BassLeft, 15),
        (CabinetLight::BassRight, 15),
        (CabinetLight::Player1Start, 13),
        (CabinetLight::Player1PadLeft, 1),
        (CabinetLight::Player1PadRight, 0),
        (CabinetLight::Player1PadUp, 3),
        (CabinetLight::Player1PadDown, 2),
        (CabinetLight::Player2Start, 12),
        (CabinetLight::Player2PadLeft, 5),
        (CabinetLight::Player2PadRight, 4),
        (CabinetLight::Player2PadUp, 7),
        (CabinetLight::Player2PadDown, 6),
    ];
    for (light, offset) in wired {
        let mut bitmap: u32 = 0;
        light.add_to_itgio_bitmap(&mut bitmap);
        assert_eq!(bitmap, 1 << offset);
    }
}

#[test]
fn unwired_identity_leaves_bitmap_unchanged() {
    let mut bitmap: u32 = 0xDEAD_BEEF;
    CabinetLight::Player1MenuLeft.add_to_itgio_bitmap(&mut bitmap);
    assert_eq!(bitmap, 0xDEAD_BEEF);
    CabinetLight::Player2Reserved6.add_to_itgio_bitmap(&mut bitmap);
    assert_eq!(bitmap, 0xDEAD_BEEF);
}

#[test]
fn add_to_itgio_bitmap_ors_into_existing_bits() {
    let mut bitmap: u32 = 1 << 13;
    CabinetLight::Player2Start.add_to_itgio_bitmap(&mut bitmap);
    assert_eq!(bitmap, (1 << 13) | (1 << 12));
}
