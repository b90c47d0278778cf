use realmode::flags::Flags;

#[test]
fn zero_u8_examines_low_byte_only() {
    let mut f = Flags::new();
    f.set_zero_u8(0x100);
    assert!(f.zero);
    f.set_zero_u8(0x01);
    assert!(!f.zero);
    for v in 0usize..=0xFF {
        f.set_zero_u8(v);
        assert_eq!(f.zero, v & 0xFF == 0);
    }
}

#[test]
fn zero_u16_examines_low_word_only() {
    let mut f = Flags::new();
    f.set_zero_u16(0x10000);
    assert!(f.zero);
    f.set_zero_u16(0x0100);
    assert!(!f.zero);
}

#[test]
fn carry_u8_from_bit_eight() {
    let mut f = Flags::new();
    f.set_carry_u8(0x100);
    assert!(f.carry);
    f.set_carry_u8(0xFF);
    assert!(!f.carry);
}

#[test]
fn carry_u16_from_bit_sixteen() {
    let mut f = Flags::new();
    f.set_carry_u16(0x10000);
    assert!(f.carry);
    f.set_carry_u16(0xFFFF);
    assert!(!f.carry);
}

#[test]
fn sign_u8_from_bit_seven() {
    let mut f = Flags::new();
    f.set_sign_u8(0x80);
    assert!(f.sign);
    f.set_sign_u8(0x7F);
    assert!(!f.sign);
}

#[test]
fn sign_u16_from_bit_fifteen() {
    let mut f = Flags::new();
    f.set_sign_u16(0x8000);
    assert!(f.sign);
    f.set_sign_u16(0x0080);
    assert!(!f.sign);
}

#[test]
fn parity_looks_at_bit_zero_only() {
    let mut f = Flags::new();
    f.set_parity(0x02);
    assert!(f.parity);
    f.set_parity(0x03);
    assert!(!f.parity);
    // 0x01 has an odd population count but bit 0 is set: parity stays clear
    f.set_parity(0x01);
    assert!(!f.parity);
}

#[test]
fn auxiliary_carry_out_of_bit_three() {
    let mut f = Flags::new();
    // 0x0F + 0x01 = 0x10 carries out of bit 3
    f.set_auxiliary(0x10, 0x0F, 0x01);
    assert!(f.auxiliary_carry);
    f.set_auxiliary(0x03, 0x01, 0x02);
    assert!(!f.auxiliary_carry);
}

#[test]
fn overflow_add_u8_positive_to_negative() {
    let mut f = Flags::new();
    f.set_overflow_add_u8(0x80, 0x7F, 0x01);
    assert!(f.overflow);
    f.set_overflow_add_u8(0x02, 0x01, 0x01);
    assert!(!f.overflow);
}

#[test]
fn overflow_add_u16_positive_to_negative() {
    let mut f = Flags::new();
    f.set_overflow_add_u16(0x8000, 0x7FFF, 0x0001);
    assert!(f.overflow);
    f.set_overflow_add_u16(0x0080, 0x007F, 0x0001);
    assert!(!f.overflow);
}

#[test]
fn overflow_sub_u8() {
    let mut f = Flags::new();
    // operands of differing sign, result sign differs from v2
    f.set_overflow_sub_u8(0x7F, 0x01, 0x80);
    assert!(f.overflow);
    f.set_overflow_sub_u8(0x01, 0x01, 0x02);
    assert!(!f.overflow);
}

#[test]
fn overflow_sub_u16() {
    let mut f = Flags::new();
    f.set_overflow_sub_u16(0x7FFF, 0x0001, 0x8000);
    assert!(f.overflow);
    f.set_overflow_sub_u16(0x0001, 0x0001, 0x0002);
    assert!(!f.overflow);
}

#[test]
fn fresh_register_serializes_to_bit_fifteen() {
    let f = Flags::new();
    assert_eq!(f.u16(), 0x8000);
}

#[test]
fn serialize_places_each_flag() {
    let mut f = Flags::new();
    f.set_carry_u8(0x100);
    f.set_zero_u8(0);
    f.set_overflow_add_u8(0x80, 0x7F, 0x01);
    assert_eq!(f.u16(), 0x8000 | 0x0001 | 0x0040 | 0x0800);
    f.trap = true;
    f.interrupt = true;
    f.direction = true;
    assert_eq!(f.u16(), 0x8000 | 0x0001 | 0x0040 | 0x0800 | 0x0100 | 0x0200 | 0x0400);
}

#[test]
fn deserialize_inverts_serialize() {
    let mut f = Flags::new();
    f.set_u16(0xFFD5);
    assert!(f.carry && f.parity && f.auxiliary_carry && f.zero && f.sign);
    assert!(f.trap && f.interrupt && f.direction && f.overflow);
    assert_eq!(f.u16(), 0xFFD5);
    f.set_u16(0x8000);
    assert_eq!(f.u16(), 0x8000);
    assert!(!f.carry && !f.overflow);
}

#[test]
fn deserialize_ignores_reserved_bits() {
    let mut f = Flags::new();
    f.set_u16(0x002A);
    assert_eq!(f.u16(), 0x8000);
}

#[test]
fn deserialize_keeps_hidden_bits() {
    let mut f = Flags::new();
    f.set_u16(0xF000);
    assert_eq!(f.u16(), 0xF000);
    let mut g = Flags::new();
    g.set_u16(f.u16());
    assert_eq!(g.u16(), f.u16());
}
