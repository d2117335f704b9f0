use gameboy::bytes::{
    add_unsigned_signed, check_bit, check_half_carry16, check_half_carry8, check_half_carry_sub16,
    check_half_carry_sub8, combine_ms_ls, set_bit, split_ms_ls,
};

#[test]
fn test_check_bit() {
    assert_eq!(check_bit(0b0000_0001, 0), true);
    assert_eq!(check_bit(0b0000_0010, 1), true);
    assert_eq!(check_bit(0b0000_0100, 2), true);
    assert_eq!(check_bit(0b0000_1000, 3), true);
    assert_eq!(check_bit(0b0001_0000, 4), true);
    assert_eq!(check_bit(0b0010_0000, 5), true);
    assert_eq!(check_bit(0b0100_0000, 6), true);
    assert_eq!(check_bit(0b1000_0000, 7), true);

    assert_eq!(check_bit(0b0000_0001, 1), false);
    assert_eq!(check_bit(0b0000_0010, 2), false);
    assert_eq!(check_bit(0b0000_0100, 3), false);
    assert_eq!(check_bit(0b0000_1000, 4), false);
    assert_eq!(check_bit(0b0001_0000, 5), false);
    assert_eq!(check_bit(0b0010_0000, 6), false);
    assert_eq!(check_bit(0b0100_0000, 7), false);
    assert_eq!(check_bit(0b1000_0000, 0), false);
}

#[test]
fn test_set_bit() {
    assert_eq!(set_bit(0b0000_0000, 3, true), 0b0000_1000);
    assert_eq!(set_bit(0b1111_1111, 3, false), 0b1111_0111);
}

#[test]
fn test_add_unsigned_signed() {
    // positive addition
    assert_eq!(add_unsigned_signed(0x0032, 0x0D), (0x003F, false, false));
    assert_eq!(add_unsigned_signed(0xFFF8, 0x13), (0x000B, true, false));
    assert_eq!(add_unsigned_signed(0x01FF, 0x13), (0x0212, false, true));

    assert_eq!(add_unsigned_signed(0x000C, 0xFB), (0x0007, false, false));
}

#[test]
fn unsigned_byte_to_signed() {}

#[test]
fn test_combine_and_split() {
    let ms = 0x0B;
    let ls = 0x0A;

    let c = combine_ms_ls(ms, ls);
    let (ms2, ls2) = split_ms_ls(c);
    assert_eq!(ms2, ms);
    assert_eq!(ls2, ls);
}

#[test]
fn test_check_half_carry() {
    assert_eq!(check_half_carry8(0b0000_1111, 0b0000_0001), true);
    assert_eq!(check_half_carry8(0b0000_1110, 0b0000_0001), false);

    assert_eq!(check_half_carry16(0b0000_1111_0000_0000, 0b0000_0001_0000_0000), true);
    assert_eq!(check_half_carry16(0b0000_1110_0000_0000, 0b0000_0001_0000_0000), false);
}

#[test]
fn combine_puts_the_high_byte_first() {
    assert_eq!(combine_ms_ls(0x12, 0x34), 0x1234);
    assert_eq!(split_ms_ls(0xABCD), (0xAB, 0xCD));
    assert_eq!(combine_ms_ls(0xFF, 0x00), 0xFF00);
}

#[test]
fn split_then_combine_gives_the_word_back() {
    for w in [0x0000u16, 0x0001, 0x00FF, 0x0100, 0x7FFF, 0x8000, 0xBEEF, 0xFFFF] {
        let (ms, ls) = split_ms_ls(w);
        assert_eq!(combine_ms_ls(ms, ls), w);
    }
}

#[test]
fn set_bit_keeps_the_other_bits() {
    assert_eq!(set_bit(0b1010_1010, 0, true), 0b1010_1011);
    assert_eq!(set_bit(0b1010_1010, 7, false), 0b0010_1010);
    assert_eq!(set_bit(0b1010_1010, 1, true), 0b1010_1010);
}

#[test]
fn negative_offsets_subtract() {
    assert_eq!(add_unsigned_signed(0x0002, 0xFF), (0x0001, false, true));
    assert_eq!(add_unsigned_signed(0x0000, 0xFF), (0xFFFF, true, true));
    assert_eq!(add_unsigned_signed(0x1234, 0x00), (0x1234, false, false));
    assert_eq!(add_unsigned_signed(0x1000, 0x81), (0x0F81, false, true));
}

#[test]
fn half_borrows() {
    assert_eq!(check_half_carry_sub8(0x10, 0x01), true);
    assert_eq!(check_half_carry_sub8(0x1F, 0x0F), false);
    assert_eq!(check_half_carry_sub16(0x1000, 0x0001), true);
    assert_eq!(check_half_carry_sub16(0x1FFF, 0x0FFF), false);
}
