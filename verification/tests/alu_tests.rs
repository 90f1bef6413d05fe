use marty::cpu_808x::alu::{math_op16, math_op8, parity8};
use marty::cpu_808x::bcd::{aaa, aad, aam, aas, daa, das};
use marty::cpu_808x::bitshift::{bitshift_op16, bitshift_op8};
use marty::cpu_808x::instruction::Mnemonic;
use marty::cpu_808x::muldiv::{div16, div8, mul16, mul8, CpuException};
use marty::cpu_808x::registers::{
    calc_linear_address, make_word, reg8to16, register16_lut, Flag, Flags, Register16, Register8,
    Registers,
};

fn clear() -> Flags {
    Flags::cleared()
}

/// Carry, parity, aux, zero, sign, overflow as a string of 0 and 1.
fn czso(f: &Flags) -> String {
    format!(
        "c{}p{}a{}z{}s{}o{}",
        f.carry as u8, f.parity as u8, f.aux_carry as u8, f.zero as u8, f.sign as u8, f.overflow as u8
    )
}

#[test]
fn add8_flags() {
    let (r, f) = math_op8(Mnemonic::ADD, 0xFF, 0x01, clear());
    assert_eq!(r, 0x00);
    assert_eq!(czso(&f), "c1p1a1z1s0o0");
    let (r, f) = math_op8(Mnemonic::ADD, 0x7F, 0x01, clear());
    assert_eq!(r, 0x80);
    assert_eq!(czso(&f), "c0p0a1z0s1o1");
    let (r, f) = math_op8(Mnemonic::ADD, 0x12, 0x34, clear());
    assert_eq!(r, 0x46);
    assert_eq!(czso(&f), "c0p0a0z0s0o0");
}

#[test]
fn add16_flags() {
    let (r, f) = math_op16(Mnemonic::ADD, 0x7FFF, 0x0001, clear());
    assert_eq!(r, 0x8000);
    assert_eq!(czso(&f), "c0p1a1z0s1o1");
    let (r, f) = math_op16(Mnemonic::ADD, 0xFFFF, 0x0001, clear());
    assert_eq!(r, 0x0000);
    assert_eq!(czso(&f), "c1p1a1z1s0o0");
}

#[test]
fn adc_and_sbb_use_carry() {
    let mut f = clear();
    f.carry = true;
    let (r, g) = math_op8(Mnemonic::ADC, 0xFF, 0x00, f);
    assert_eq!(r, 0x00);
    assert_eq!(czso(&g), "c1p1a1z1s0o0");
    let (r, g) = math_op8(Mnemonic::SBB, 0x00, 0x00, f);
    assert_eq!(r, 0xFF);
    assert_eq!(czso(&g), "c1p1a1z0s1o0");
    let (r, g) = math_op16(Mnemonic::ADC, 0x00FF, 0x0000, f);
    assert_eq!(r, 0x0100);
    assert_eq!(czso(&g), "c0p1a1z0s0o0");
    let (r, g) = math_op16(Mnemonic::SBB, 0x8000, 0x0000, f);
    assert_eq!(r, 0x7FFF);
    assert_eq!(czso(&g), "c0p1a1z0s0o1");
}

#[test]
fn sub8_flags() {
    let (r, f) = math_op8(Mnemonic::SUB, 0x00, 0x01, clear());
    assert_eq!(r, 0xFF);
    assert_eq!(czso(&f), "c1p1a1z0s1o0");
    let (r, f) = math_op8(Mnemonic::SUB, 0x80, 0x01, clear());
    assert_eq!(r, 0x7F);
    assert_eq!(czso(&f), "c0p0a1z0s0o1");
    let (r, f) = math_op8(Mnemonic::CMP, 0x05, 0x05, clear());
    assert_eq!(r, 0x00);
    assert_eq!(czso(&f), "c0p1a0z1s0o0");
}

#[test]
fn inc_and_dec_keep_carry() {
    let mut f = clear();
    f.carry = true;
    let (r, g) = math_op8(Mnemonic::INC, 0x7F, 0, f);
    assert_eq!(r, 0x80);
    assert_eq!(czso(&g), "c1p0a1z0s1o1");
    let (r, g) = math_op8(Mnemonic::INC, 0xFF, 0, clear());
    assert_eq!(r, 0x00);
    assert_eq!(czso(&g), "c0p1a1z1s0o0");
    let (r, g) = math_op16(Mnemonic::DEC, 0x0000, 0, f);
    assert_eq!(r, 0xFFFF);
    assert_eq!(czso(&g), "c1p1a1z0s1o0");
    let (r, g) = math_op16(Mnemonic::DEC, 0x8000, 0, clear());
    assert_eq!(r, 0x7FFF);
    assert_eq!(czso(&g), "c0p1a1z0s0o1");
}

#[test]
fn neg_and_not() {
    let (r, f) = math_op8(Mnemonic::NEG, 0x01, 0, clear());
    assert_eq!(r, 0xFF);
    assert_eq!(czso(&f), "c1p1a1z0s1o0");
    let (r, f) = math_op8(Mnemonic::NEG, 0x00, 0, clear());
    assert_eq!(r, 0x00);
    assert_eq!(czso(&f), "c0p1a0z1s0o0");
    let (r, f) = math_op8(Mnemonic::NEG, 0x80, 0, clear());
    assert_eq!(r, 0x80);
    assert_eq!(czso(&f), "c1p0a0z0s1o1");
    let mut g = clear();
    g.carry = true;
    g.zero = true;
    let (r, f) = math_op8(Mnemonic::NOT, 0x0F, 0, g);
    assert_eq!(r, 0xF0);
    assert_eq!(f, g);
    let (r, f) = math_op16(Mnemonic::NOT, 0x00FF, 0, g);
    assert_eq!(r, 0xFF00);
    assert_eq!(f, g);
}

#[test]
fn logic_ops_clear_carry_overflow_and_aux() {
    let mut g = clear();
    g.carry = true;
    g.overflow = true;
    g.aux_carry = true;
    let (r, f) = math_op8(Mnemonic::AND, 0xF0, 0x3C, g);
    assert_eq!(r, 0x30);
    assert_eq!(czso(&f), "c0p1a0z0s0o0");
    let (r, f) = math_op8(Mnemonic::OR, 0x80, 0x01, g);
    assert_eq!(r, 0x81);
    assert_eq!(czso(&f), "c0p1a0z0s1o0");
    let (r, f) = math_op16(Mnemonic::XOR, 0xFFFF, 0xFFFF, g);
    assert_eq!(r, 0x0000);
    assert_eq!(czso(&f), "c0p1a0z1s0o0");
    let (r, f) = math_op16(Mnemonic::TEST, 0x8001, 0x8000, g);
    assert_eq!(r, 0x8000);
    assert_eq!(czso(&f), "c0p1a0z0s1o0");
}

#[test]
fn other_mnemonics_leave_everything() {
    let mut g = clear();
    g.sign = true;
    let (r, f) = math_op8(Mnemonic::MOV, 0x12, 0x34, g);
    assert_eq!(r, 0x12);
    assert_eq!(f, g);
}

#[test]
fn parity_counts_ones_of_low_byte() {
    assert!(parity8(0x00));
    assert!(parity8(0x03));
    assert!(!parity8(0x07));
    assert!(!parity8(0x80));
    assert!(parity8(0xFF));
}

#[test]
fn shifts_by_one() {
    let (r, f) = bitshift_op8(Mnemonic::SHL, 0x81, 1, clear());
    assert_eq!(r, 0x02);
    assert_eq!(czso(&f), "c1p0a0z0s0o1");
    let (r, f) = bitshift_op8(Mnemonic::SHL, 0x48, 1, clear());
    assert_eq!(r, 0x90);
    assert_eq!(czso(&f), "c0p1a1z0s1o1");
    let (r, f) = bitshift_op8(Mnemonic::SHR, 0x81, 1, clear());
    assert_eq!(r, 0x40);
    assert_eq!(czso(&f), "c1p0a0z0s0o1");
    let (r, f) = bitshift_op8(Mnemonic::SAR, 0x81, 1, clear());
    assert_eq!(r, 0xC0);
    assert_eq!(czso(&f), "c1p1a0z0s1o0");
    let (r, f) = bitshift_op16(Mnemonic::SHR, 0x0001, 1, clear());
    assert_eq!(r, 0x0000);
    assert_eq!(czso(&f), "c1p1a0z1s0o0");
    let (r, f) = bitshift_op16(Mnemonic::SAR, 0x8000, 1, clear());
    assert_eq!(r, 0xC000);
    assert_eq!(czso(&f), "c0p1a0z0s1o0");
}

#[test]
fn rotates_leave_sign_zero_parity() {
    let mut g = clear();
    g.zero = true;
    g.parity = true;
    let (r, f) = bitshift_op8(Mnemonic::ROL, 0x81, 1, g);
    assert_eq!(r, 0x03);
    assert_eq!(czso(&f), "c1p1a0z1s0o1");
    let (r, f) = bitshift_op8(Mnemonic::ROR, 0x01, 1, g);
    assert_eq!(r, 0x80);
    assert_eq!(czso(&f), "c1p1a0z1s0o1");
    let mut c = clear();
    c.carry = true;
    let (r, f) = bitshift_op8(Mnemonic::RCL, 0x80, 1, c);
    assert_eq!(r, 0x01);
    assert_eq!(czso(&f), "c1p0a0z0s0o1");
    let (r, f) = bitshift_op8(Mnemonic::RCR, 0x01, 1, clear());
    assert_eq!(r, 0x00);
    assert_eq!(czso(&f), "c1p0a0z0s0o0");
    let (r, f) = bitshift_op16(Mnemonic::RCR, 0x0000, 1, c);
    assert_eq!(r, 0x8000);
    assert_eq!(czso(&f), "c0p0a0z0s0o1");
    let (r, f) = bitshift_op16(Mnemonic::ROL, 0x8000, 1, clear());
    assert_eq!(r, 0x0001);
    assert_eq!(czso(&f), "c1p0a0z0s0o1");
}

#[test]
fn shift_counts_are_not_masked() {
    let (r, f) = bitshift_op8(Mnemonic::SHL, 0xFF, 9, clear());
    assert_eq!(r, 0x00);
    assert!(!f.carry);
    assert!(f.zero);
    let (r, f) = bitshift_op8(Mnemonic::SHL, 0xFF, 8, clear());
    assert_eq!(r, 0x00);
    assert!(f.carry);
    let (r, _) = bitshift_op8(Mnemonic::ROL, 0x81, 8, clear());
    assert_eq!(r, 0x81);
    let (r, _) = bitshift_op16(Mnemonic::ROR, 0x0001, 17, clear());
    assert_eq!(r, 0x8000);
    let (r, f) = bitshift_op16(Mnemonic::SAR, 0x8000, 255, clear());
    assert_eq!(r, 0xFFFF);
    assert!(f.carry);
}

#[test]
fn shift_by_zero_changes_nothing() {
    let mut g = clear();
    g.carry = true;
    g.overflow = true;
    g.zero = true;
    for m in [
        Mnemonic::ROL,
        Mnemonic::ROR,
        Mnemonic::RCL,
        Mnemonic::RCR,
        Mnemonic::SHL,
        Mnemonic::SHR,
        Mnemonic::SAR,
    ] {
        let (r, f) = bitshift_op8(m, 0x81, 0, g);
        assert_eq!(r, 0x81);
        assert_eq!(f, g);
        let (r, f) = bitshift_op16(m, 0x8001, 0, g);
        assert_eq!(r, 0x8001);
        assert_eq!(f, g);
    }
}

#[test]
fn multiply() {
    let (p, f) = mul8(3, 4, false, false, clear());
    assert_eq!(p, 12);
    assert!(!f.carry && !f.overflow);
    let (p, f) = mul8(0xFF, 0xFF, false, false, clear());
    assert_eq!(p, 0xFE01);
    assert!(f.carry && f.overflow);
    let (p, f) = mul8(0xFF, 0xFF, true, false, clear());
    assert_eq!(p, 0x0001);
    assert!(!f.carry && !f.overflow);
    let (p, f) = mul8(0x80, 0x02, true, false, clear());
    assert_eq!(p, 0xFF00);
    assert!(f.carry && f.overflow);
    let (p, f) = mul8(0xFF, 0x02, true, false, clear());
    assert_eq!(p, 0xFFFE);
    assert!(!f.carry && !f.overflow);
    let (p, f) = mul8(3, 4, false, true, clear());
    assert_eq!(p, 0xFFF4);
    assert!(f.carry && f.overflow);
    let (h, l, f) = mul16(0xFFFF, 0xFFFF, false, false, clear());
    assert_eq!((h, l), (0xFFFE, 0x0001));
    assert!(f.carry);
    let (h, l, f) = mul16(0xFFFF, 0x0002, true, false, clear());
    assert_eq!((h, l), (0xFFFF, 0xFFFE));
    assert!(!f.carry);
    let (h, l, f) = mul16(0x0100, 0x0100, false, true, clear());
    assert_eq!((h, l), (0xFFFF, 0x0000));
    assert!(f.carry);
}

#[test]
fn divide() {
    assert_eq!(div8(100, 7, false, false), Ok((14, 2)));
    assert_eq!(div8(100, 0, false, false), Err(CpuException::DivideError));
    assert_eq!(div8(0x1000, 1, false, false), Err(CpuException::DivideError));
    assert_eq!(div8(0x00FF, 1, false, false), Ok((0xFF, 0)));
    assert_eq!(div8(0xFF9C, 7, true, false), Ok((0xF2, 0xFE)));
    assert_eq!(div8(100, 0xF9, true, false), Ok((0xF2, 2)));
    assert_eq!(div8(0x0080, 1, true, false), Err(CpuException::DivideError));
    assert_eq!(div8(0xFF80, 1, true, false), Err(CpuException::DivideError));
    assert_eq!(div8(0x007F, 1, true, false), Ok((0x7F, 0)));
    assert_eq!(div8(0xFF81, 1, true, false), Ok((0x81, 0)));
    assert_eq!(div8(100, 7, false, true), Ok((0xF2, 2)));
    assert_eq!(div16(0x0001_0000, 2, false, false), Ok((0x8000, 0)));
    assert_eq!(div16(0x0001_0000, 1, false, false), Err(CpuException::DivideError));
    assert_eq!(div16(7, 0, true, false), Err(CpuException::DivideError));
    assert_eq!(div16(0xFFFF_FFF9, 2, true, false), Ok((0xFFFD, 0xFFFF)));
    assert_eq!(div16(0x0000_8000, 1, true, false), Err(CpuException::DivideError));
    assert_eq!(div16(1000, 3, false, true), Ok((0xFEB3, 1)));
}

#[test]
fn decimal_adjust() {
    let (al, f) = daa(0x0F, clear());
    assert_eq!(al, 0x15);
    assert!(f.aux_carry && !f.carry);
    let (al, f) = daa(0x9A, clear());
    assert_eq!(al, 0x00);
    assert!(f.aux_carry && f.carry && f.zero);
    let mut a = clear();
    a.aux_carry = true;
    let (al, f) = daa(0x9B, a);
    assert_eq!(al, 0xA1);
    assert!(f.aux_carry && !f.carry);
    let (al, f) = daa(0x12, clear());
    assert_eq!(al, 0x12);
    assert!(!f.aux_carry && !f.carry);
    let (al, f) = das(0x10, clear());
    assert_eq!(al, 0x10);
    assert!(!f.aux_carry && !f.carry);
    let (al, f) = das(0x1F, clear());
    assert_eq!(al, 0x19);
    assert!(f.aux_carry && !f.carry);
    let mut c = clear();
    c.carry = true;
    let (al, f) = das(0x05, c);
    assert_eq!(al, 0xA5);
    assert!(f.carry && f.sign);
}

#[test]
fn ascii_adjust() {
    assert_eq!(aaa(0x0B, 0x00, clear()).0, 0x01);
    assert_eq!(aaa(0x0B, 0x00, clear()).1, 0x01);
    assert!(aaa(0x0B, 0x00, clear()).2.carry);
    assert!(aaa(0x0B, 0x00, clear()).2.aux_carry);
    let (l, h, f) = aaa(0x35, 0x02, clear());
    assert_eq!((l, h), (0x05, 0x02));
    assert!(!f.carry && !f.aux_carry);
    let (l, h, f) = aas(0x0B, 0x00, clear());
    assert_eq!((l, h), (0x05, 0xFF));
    assert!(f.carry && f.aux_carry);
    let (l, h, _) = aas(0x03, 0x07, clear());
    assert_eq!((l, h), (0x03, 0x07));
    let r = aam(0x63, 10, clear()).unwrap();
    assert_eq!((r.0, r.1), (9, 9));
    assert!(r.2.parity);
    assert!(aam(0x63, 0, clear()).is_none());
    let r = aam(0x63, 16, clear()).unwrap();
    assert_eq!((r.0, r.1), (3, 6));
    let (l, h, f) = aad(9, 9, 10, clear());
    assert_eq!((l, h), (99, 0));
    assert!(!f.zero);
    let (l, h, f) = aad(0, 0x10, 0x10, clear());
    assert_eq!((l, h), (0, 0));
    assert!(f.zero);
}

#[test]
fn flag_word_forces_undefined_bits() {
    assert_eq!(Flags::cleared().to_word(), 0xF002);
    let all = Flags::from_word(0xFFFF);
    assert_eq!(all.to_word(), 0xFFD7);
    assert_eq!(Flags::from_word(0x0000).to_word(), 0xF002);
    let f = Flags::from_word(0x0801);
    assert!(f.carry && f.overflow && !f.zero);
    assert!(f.flag(Flag::Carry));
    assert!(!f.flag(Flag::Direction));
    assert_eq!(f.low_byte(), 0x03);
    let mut g = f;
    g.set_state(Flag::Direction, true);
    assert_eq!(g.to_word(), 0xFC03);
    g.store_low_byte(0xFF);
    assert_eq!(g.to_word(), 0xFCD7);
}

#[test]
fn registers_and_their_halves() {
    let mut r = Registers::at_reset();
    assert_eq!(r.cs, 0xFFFF);
    r.write16(Register16::AX, 0x1234);
    assert_eq!(r.read8(Register8::AL), 0x34);
    assert_eq!(r.read8(Register8::AH), 0x12);
    r.write8(Register8::AH, 0xAB);
    assert_eq!(r.ax, 0xAB34);
    r.write8(Register8::DL, 0x77);
    assert_eq!(r.dx, 0x0077);
    r.write8(Register8::BH, 0x01);
    r.write8(Register8::CL, 0x02);
    assert_eq!(r.bx, 0x0100);
    assert_eq!(r.cx, 0x0002);
    assert_eq!(make_word(0x34, 0x12), 0x1234);
    assert_eq!(reg8to16(Register8::AH), Register16::SP);
    assert_eq!(reg8to16(Register8::BL), Register16::BX);
    assert_eq!(register16_lut(0x54), Register16::SP);
    assert_eq!(register16_lut(0x5F), Register16::DI);
    assert_eq!(calc_linear_address(0xFFFF, 0x0010), 0x00000);
    assert_eq!(calc_linear_address(0x1234, 0x0005), 0x12345);
}
