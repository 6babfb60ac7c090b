use gbcore::instructions::{R16, R8};
use gbcore::registers::{flags_from_u8, flags_to_u8, Flags, Registers};

#[test]
fn r8_set_then_get_round_trip() {
    let regs8 = [R8::A, R8::B, R8::C, R8::D, R8::E, R8::H, R8::L];
    for (k, reg) in regs8.iter().enumerate() {
        for v in [0u8, 1, 0x7F, 0x80, 0xFF] {
            let mut r = Registers::new();
            r.set_r8(reg, v);
            assert_eq!(r.get_r8(reg), v);
            // no other register changes
            for (j, other) in regs8.iter().enumerate() {
                if j != k {
                    assert_eq!(r.get_r8(other), 0);
                }
            }
        }
    }
}

#[test]
fn r16_set_then_get_round_trip() {
    for pair in [R16::BC, R16::DE, R16::HL] {
        for v in [0u16, 1, 0x1234, 0xFF00, 0xFFFF] {
            let mut r = Registers::new();
            r.set_r16(&pair, v);
            assert_eq!(r.get_r16(&pair), v);
            assert_eq!(r.get_r8(&pair.get_upper()), (v >> 8) as u8);
            assert_eq!(r.get_r8(&pair.get_lower()), (v & 0xFF) as u8);
        }
    }
}

#[test]
fn dedicated_pair_accessors_split_high_low() {
    let mut r = Registers::new();
    r.set_bc(0xA1B2);
    assert_eq!(r.b, 0xA1);
    assert_eq!(r.c, 0xB2);
    assert_eq!(r.get_bc(), 0xA1B2);
    r.set_de(0x0304);
    assert_eq!(r.get_de(), 0x0304);
    r.set_hl(0xFFEE);
    assert_eq!(r.get_hl(), 0xFFEE);
}

#[test]
fn flags_pack_into_top_nibble() {
    let f = Flags { zero: true, subtract: false, half_carry: true, carry: false };
    let b = flags_to_u8(&f);
    assert_eq!(b, 0b1010_0000);
    assert_eq!(b & 0x0F, 0);
    let f2 = flags_from_u8(b);
    assert!(f2.zero && !f2.subtract && f2.half_carry && !f2.carry);
}

#[test]
fn flags_unpack_drops_bottom_nibble() {
    let f = flags_from_u8(0xFF);
    assert!(f.zero && f.subtract && f.half_carry && f.carry);
    assert_eq!(flags_to_u8(&f), 0xF0);
}

#[test]
fn af_pairs_accumulator_with_flags_byte() {
    let mut r = Registers::new();
    r.a = 0x12;
    r.f = Flags { zero: true, subtract: true, half_carry: false, carry: true };
    assert_eq!(r.get_af(), 0x12D0);
    r.set_af(0x34B7);
    assert_eq!(r.a, 0x34);
    // only the top nibble of the low byte carries flags
    assert!(r.f.zero && !r.f.subtract && r.f.half_carry && r.f.carry);
}

#[test]
fn set_pc_joins_bytes_high_first() {
    let mut r = Registers::new();
    r.set_pc(0x34, 0x12);
    assert_eq!(r.pc, 0x1234);
}

#[test]
fn power_on_state_is_all_zero() {
    let r = Registers::new();
    assert_eq!(r.a, 0);
    assert_eq!(r.get_bc(), 0);
    assert_eq!(r.get_de(), 0);
    assert_eq!(r.get_hl(), 0);
    assert_eq!(r.sp, 0);
    assert_eq!(r.pc, 0);
    assert!(!r.f.zero && !r.f.subtract && !r.f.half_carry && !r.f.carry);
}
