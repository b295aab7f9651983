use vm16::word::add_wrap16;
use vm16::word::mul_wrap16;
use vm16::word::shift_left16;
use vm16::word::shift_right16;
use vm16::word::sub_wrap16;
use vm16::word::word_from_bytes;
use vm16::word::word_hi;
use vm16::word::word_lo;

#[test]
fn word_from_bytes_is_big_endian() {
    assert_eq!(word_from_bytes(0x12, 0x34), 0x1234);
    assert_eq!(word_from_bytes(0x00, 0xFF), 0x00FF);
    assert_eq!(word_from_bytes(0xFF, 0x00), 0xFF00);
}

#[test]
fn word_split_matches_join() {
    assert_eq!(word_hi(0x1234), 0x12);
    assert_eq!(word_lo(0x1234), 0x34);
    for w in [0x0000u16, 0x0001, 0x00FF, 0x0100, 0xABCD, 0xFFFF] {
        assert_eq!(word_from_bytes(word_hi(w), word_lo(w)), w);
    }
}

#[test]
fn add_wraps_at_sixteen_bits() {
    assert_eq!(add_wrap16(0xFFFF, 0x0001), 0x0000);
    assert_eq!(add_wrap16(0xFFFF, 0xFFFF), 0xFFFE);
    assert_eq!(add_wrap16(0x1234, 0x0001), 0x1235);
}

#[test]
fn sub_wraps_at_zero() {
    assert_eq!(sub_wrap16(0x0000, 0x0001), 0xFFFF);
    assert_eq!(sub_wrap16(0x0005, 0x0007), 0xFFFE);
    assert_eq!(sub_wrap16(0x1234, 0x0034), 0x1200);
}

#[test]
fn mul_wraps_at_sixteen_bits() {
    assert_eq!(mul_wrap16(0x0100, 0x0100), 0x0000);
    assert_eq!(mul_wrap16(0x00FF, 0x0101), 0x00FF * 0x0101);
    assert_eq!(mul_wrap16(0xFFFF, 0x0002), 0xFFFE);
}

#[test]
fn shifts_by_sixteen_or_more_clear_the_word() {
    assert_eq!(shift_left16(0x0001, 4), 0x0010);
    assert_eq!(shift_left16(0xFFFF, 16), 0x0000);
    assert_eq!(shift_left16(0xFFFF, 200), 0x0000);
    assert_eq!(shift_right16(0x8000, 15), 0x0001);
    assert_eq!(shift_right16(0xFFFF, 16), 0x0000);
    assert_eq!(shift_right16(0x00F0, 4), 0x000F);
}
