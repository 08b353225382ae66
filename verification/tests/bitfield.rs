use icm42688p::BitField;

fn field(offset: u8, width: u8) -> BitField {
    BitField::new(offset, width).expect("the field lies within a byte")
}

#[test]
fn new_accepts_exactly_the_fields_within_a_byte() {
    for offset in 0..=255u8 {
        for width in 0..=255u8 {
            let fits = width >= 1 && offset as u16 + width as u16 <= 8;
            match BitField::new(offset, width) {
                Some(made) => {
                    assert!(fits);
                    assert_eq!(made, BitField { offset, width });
                }
                None => assert!(!fits),
            }
        }
    }
}

#[test]
fn mask_covers_the_field() {
    assert_eq!(field(0, 4).mask(), 0x0F);
    assert_eq!(field(5, 3).mask(), 0xE0);
    assert_eq!(field(2, 2).mask(), 0x0C);
    assert_eq!(field(0, 8).mask(), 0xFF);
    assert_eq!(field(7, 1).mask(), 0x80);
    assert_eq!(field(0, 1).mask(), 0x01);
}

#[test]
fn extract_moves_the_field_down() {
    assert_eq!(field(5, 3).extract(0b1010_0110), 0b101);
    assert_eq!(field(0, 4).extract(0b1010_0110), 0b0110);
    assert_eq!(field(2, 2).extract(0b0000_1000), 0b10);
    assert_eq!(field(0, 8).extract(0xA5), 0xA5);
    assert_eq!(field(7, 1).extract(0x7F), 0);
}

#[test]
fn insert_replaces_the_field_only() {
    assert_eq!(field(5, 3).insert(0xFF, 0b001), 0b0011_1111);
    assert_eq!(field(5, 3).insert(0x00, 0b001), 0b0010_0000);
    assert_eq!(field(0, 4).insert(0xFF, 0b1000), 0b1111_1000);
    assert_eq!(field(0, 4).insert(0x00, 0b1000), 0b0000_1000);
    assert_eq!(field(2, 2).insert(0b1111_0011, 0b11), 0b1111_1111);
    assert_eq!(field(0, 8).insert(0x12, 0x34), 0x34);
}

#[test]
fn insert_cuts_the_value_to_the_width() {
    assert_eq!(field(5, 3).insert(0x00, 0xFF), 0xE0);
    assert_eq!(field(0, 4).insert(0xA0, 0x1F), 0xAF);
    assert_eq!(field(2, 2).insert(0x00, 0b101), 0b0100);
}

#[test]
fn insert_keeps_marker_bits_outside_every_field() {
    for offset in 0..8u8 {
        for width in 1..=(8 - offset) {
            let f = field(offset, width);
            let mask = f.mask();
            for marker in [0x00u8, 0xFF, 0xAA, 0x55, 0x3C] {
                for value in 0..=255u8 {
                    let updated = f.insert(marker, value);
                    assert_eq!(updated & !mask, marker & !mask);
                    assert_eq!(f.extract(updated), value & (mask >> offset));
                }
            }
        }
    }
}

#[test]
fn insert_of_extract_changes_nothing() {
    for offset in 0..8u8 {
        for width in 1..=(8 - offset) {
            let f = field(offset, width);
            for byte in 0..=255u8 {
                assert_eq!(f.insert(byte, f.extract(byte)), byte);
            }
        }
    }
}

#[test]
fn insert_keeps_disjoint_fields() {
    let range = field(5, 3);
    let rate = field(0, 4);
    for byte in 0..=255u8 {
        for value in 0..8u8 {
            assert_eq!(rate.extract(range.insert(byte, value)), rate.extract(byte));
        }
        for value in 0..16u8 {
            assert_eq!(range.extract(rate.insert(byte, value)), range.extract(byte));
        }
    }
}
