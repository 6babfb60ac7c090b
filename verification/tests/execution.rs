use gbcore::cpu::{Cpu, ImeState};
use gbcore::instructions::{Condition, Instruction, RstVec, R16, R8, U3};
use gbcore::memory::Memory;

fn machine() -> (Cpu, Memory) {
    (Cpu::new(), Memory::new(Vec::new()))
}

#[test]
fn add_a_sets_half_carry_on_nibble_overflow() {
    // ADD A, 0x0F with A = 0x01: half-carry true, carry false, zero false,
    // result 0x10
    let (mut cpu, mut mem) = machine();
    cpu.registers.a = 0x01;
    let t = cpu.execute(Instruction::ADD_A_N8 { n8: 0x0F }, &mut mem);
    assert_eq!(cpu.registers.a, 0x10);
    assert!(cpu.registers.f.half_carry);
    assert!(!cpu.registers.f.carry);
    assert!(!cpu.registers.f.zero);
    assert!(!cpu.registers.f.subtract);
    assert_eq!(t, 8);
}

#[test]
fn adc_a_wraps_and_keeps_carry() {
    // ADC A, 0xFF with A = 0x01 and carry set: 0x01 + 0xFF + 1 wraps to 0x01
    let (mut cpu, mut mem) = machine();
    cpu.registers.a = 0x01;
    cpu.registers.f.carry = true;
    cpu.execute(Instruction::ADC_A_N8 { n8: 0xFF }, &mut mem);
    assert_eq!(cpu.registers.a, 0x01);
    assert!(cpu.registers.f.carry);
    assert!(!cpu.registers.f.zero);
}

#[test]
fn adc_a_without_carry_flag_adds_nothing_extra() {
    let (mut cpu, mut mem) = machine();
    cpu.registers.a = 0x01;
    cpu.registers.f.carry = false;
    cpu.execute(Instruction::ADC_A_N8 { n8: 0xFF }, &mut mem);
    assert_eq!(cpu.registers.a, 0x00);
    assert!(cpu.registers.f.carry);
    assert!(cpu.registers.f.zero);
}

#[test]
fn bit_test_sets_zero_iff_bit_not_set() {
    // BIT 7, A with A = 0x00: zero flag true (bit not set)
    let (mut cpu, mut mem) = machine();
    cpu.registers.a = 0x00;
    cpu.execute(Instruction::BIT_U3_R8 { u3: U3::Seven, r8: R8::A }, &mut mem);
    assert!(cpu.registers.f.zero);
    assert!(cpu.registers.f.half_carry);
    assert!(!cpu.registers.f.subtract);
    // BIT 7, A with A = 0x80: zero flag false
    cpu.registers.a = 0x80;
    cpu.execute(Instruction::BIT_U3_R8 { u3: U3::Seven, r8: R8::A }, &mut mem);
    assert!(!cpu.registers.f.zero);
}

#[test]
fn bit_test_leaves_carry_untouched() {
    let (mut cpu, mut mem) = machine();
    cpu.registers.f.carry = true;
    cpu.execute(Instruction::BIT_U3_R8 { u3: U3::Zero, r8: R8::B }, &mut mem);
    assert!(cpu.registers.f.carry);
}

#[test]
fn ei_enables_after_one_full_instruction() {
    let (mut cpu, mut mem) = machine();
    assert_eq!(cpu.ime_state, ImeState::Unset);
    cpu.execute(Instruction::EI, &mut mem);
    // the enabling instruction completed: one step short of enabled
    assert_eq!(cpu.ime_state, ImeState::PendingInstructionCompletion);
    cpu.execute(Instruction::NOP, &mut mem);
    // one further instruction completed: now enabled
    assert_eq!(cpu.ime_state, ImeState::Enabled);
    cpu.execute(Instruction::NOP, &mut mem);
    assert_eq!(cpu.ime_state, ImeState::Enabled);
}

#[test]
fn di_disables_immediately_overriding_pending_ei() {
    let (mut cpu, mut mem) = machine();
    cpu.execute(Instruction::EI, &mut mem);
    assert_ne!(cpu.ime_state, ImeState::Unset);
    cpu.execute(Instruction::DI, &mut mem);
    assert_eq!(cpu.ime_state, ImeState::Unset);
    // and a later instruction does not resurrect the pending enable
    cpu.execute(Instruction::NOP, &mut mem);
    assert_eq!(cpu.ime_state, ImeState::Unset);
}

#[test]
fn reti_arms_the_enable_to_land_immediately() {
    let (mut cpu, mut mem) = machine();
    cpu.registers.sp = 0xC100;
    mem.write(0xC100, 0x34);
    mem.write(0xC101, 0x12);
    let t = cpu.execute(Instruction::RETI, &mut mem);
    assert_eq!(t, 16);
    assert_eq!(cpu.registers.pc, 0x1234);
    assert_eq!(cpu.registers.sp, 0xC102);
    // effective at the end of RETI itself, not one instruction later
    assert_eq!(cpu.ime_state, ImeState::Enabled);
}

#[test]
fn call_pushes_return_address_and_ret_pops_it() {
    let (mut cpu, mut mem) = machine();
    cpu.registers.pc = 0xABCD;
    cpu.registers.sp = 0xC200;
    let t = cpu.execute(Instruction::CALL_N16 { n16: 0x4000 }, &mut mem);
    assert_eq!(t, 24);
    assert_eq!(cpu.registers.pc, 0x4000);
    assert_eq!(cpu.registers.sp, 0xC1FE);
    // high byte pushed first (at the higher address), low byte below it
    assert_eq!(mem.read(0xC1FF), 0xAB);
    assert_eq!(mem.read(0xC1FE), 0xCD);
    let t = cpu.execute(Instruction::RET, &mut mem);
    assert_eq!(t, 12);
    assert_eq!(cpu.registers.pc, 0xABCD);
    assert_eq!(cpu.registers.sp, 0xC200);
}

#[test]
fn conditional_call_and_ret_cost_depends_on_condition() {
    let (mut cpu, mut mem) = machine();
    cpu.registers.sp = 0xC200;
    cpu.registers.f.zero = false;
    let t = cpu.execute(
        Instruction::CALL_CC_N16 { condition: Condition::Z, n16: 0x4000 },
        &mut mem,
    );
    assert_eq!(t, 12);
    assert_eq!(cpu.registers.pc, 0);
    cpu.registers.f.zero = true;
    let t = cpu.execute(
        Instruction::CALL_CC_N16 { condition: Condition::Z, n16: 0x4000 },
        &mut mem,
    );
    assert_eq!(t, 24);
    assert_eq!(cpu.registers.pc, 0x4000);
    let t = cpu.execute(Instruction::RET_CC { condition: Condition::C }, &mut mem);
    assert_eq!(t, 8);
    cpu.registers.f.carry = true;
    let t = cpu.execute(Instruction::RET_CC { condition: Condition::C }, &mut mem);
    assert_eq!(t, 20);
}

#[test]
fn rst_calls_its_fixed_vector() {
    let (mut cpu, mut mem) = machine();
    cpu.registers.pc = 0x1234;
    cpu.registers.sp = 0xC300;
    let t = cpu.execute(Instruction::RST { vec: RstVec::X28 }, &mut mem);
    assert_eq!(t, 16);
    assert_eq!(cpu.registers.pc, 0x0028);
    assert_eq!(mem.read(0xC2FF), 0x12);
    assert_eq!(mem.read(0xC2FE), 0x34);
}

#[test]
fn conditional_jumps_cost_and_target() {
    let (mut cpu, mut mem) = machine();
    cpu.registers.f.carry = false;
    let t = cpu.execute(
        Instruction::JP_CC_N16 { condition: Condition::NC, n16: 0x2000 },
        &mut mem,
    );
    assert_eq!(t, 16); // taken: 16 cycles
    assert_eq!(cpu.registers.pc, 0x2000);
    let t = cpu.execute(
        Instruction::JP_CC_N16 { condition: Condition::C, n16: 0x3000 },
        &mut mem,
    );
    assert_eq!(t, 12); // not taken: 12 cycles
    assert_eq!(cpu.registers.pc, 0x2000);
}

#[test]
fn relative_jumps_displace_the_program_counter() {
    let (mut cpu, mut mem) = machine();
    cpu.registers.pc = 0x0100;
    let t = cpu.execute(Instruction::JR_N16 { offset: -2 }, &mut mem);
    assert_eq!(t, 12);
    assert_eq!(cpu.registers.pc, 0x00FE);
    let t = cpu.execute(
        Instruction::JR_CC_N16 { condition: Condition::NZ, offset: 0x10 },
        &mut mem,
    );
    assert_eq!(t, 12); // taken: 12 cycles
    assert_eq!(cpu.registers.pc, 0x010E);
    cpu.registers.f.zero = true;
    let t = cpu.execute(
        Instruction::JR_CC_N16 { condition: Condition::NZ, offset: 0x10 },
        &mut mem,
    );
    assert_eq!(t, 8); // not taken: 8 cycles
    assert_eq!(cpu.registers.pc, 0x010E);
}

#[test]
fn push_pop_round_trips_a_register_pair() {
    let (mut cpu, mut mem) = machine();
    cpu.registers.sp = 0xC400;
    cpu.registers.set_bc(0xBEEF);
    cpu.execute(Instruction::PUSH_R16 { r16: R16::BC }, &mut mem);
    assert_eq!(cpu.registers.sp, 0xC3FE);
    cpu.execute(Instruction::POP_R16 { r16: R16::DE }, &mut mem);
    assert_eq!(cpu.registers.sp, 0xC400);
    assert_eq!(cpu.registers.get_de(), 0xBEEF);
}

#[test]
fn push_pop_af_round_trips_flags_through_memory() {
    let (mut cpu, mut mem) = machine();
    cpu.registers.sp = 0xC400;
    cpu.registers.a = 0x9C;
    cpu.registers.f.zero = true;
    cpu.registers.f.carry = true;
    cpu.execute(Instruction::PUSH_AF, &mut mem);
    cpu.registers.a = 0;
    cpu.registers.f.zero = false;
    cpu.registers.f.carry = false;
    cpu.execute(Instruction::POP_AF, &mut mem);
    assert_eq!(cpu.registers.a, 0x9C);
    assert!(cpu.registers.f.zero);
    assert!(cpu.registers.f.carry);
    assert!(!cpu.registers.f.subtract);
    assert!(!cpu.registers.f.half_carry);
}

#[test]
fn sub_and_cp_set_subtraction_flags() {
    let (mut cpu, mut mem) = machine();
    cpu.registers.a = 0x10;
    cpu.execute(Instruction::SUB_A_N8 { n8: 0x01 }, &mut mem);
    assert_eq!(cpu.registers.a, 0x0F);
    assert!(cpu.registers.f.subtract);
    assert!(cpu.registers.f.half_carry); // low nibble borrowed
    assert!(!cpu.registers.f.carry);
    assert!(!cpu.registers.f.zero);
    // CP leaves the accumulator untouched
    cpu.execute(Instruction::CP_A_N8 { n8: 0x0F }, &mut mem);
    assert_eq!(cpu.registers.a, 0x0F);
    assert!(cpu.registers.f.zero);
    // a larger subtrahend borrows
    cpu.execute(Instruction::CP_A_N8 { n8: 0x10 }, &mut mem);
    assert!(cpu.registers.f.carry);
}

#[test]
fn sbc_borrows_the_carry_flag() {
    let (mut cpu, mut mem) = machine();
    cpu.registers.a = 0x10;
    cpu.registers.f.carry = true;
    cpu.execute(Instruction::SBC_A_N8 { n8: 0x0F }, &mut mem);
    assert_eq!(cpu.registers.a, 0x00);
    assert!(cpu.registers.f.zero);
    assert!(cpu.registers.f.subtract);
    assert!(!cpu.registers.f.carry);
}

#[test]
fn and_or_xor_set_their_flag_patterns() {
    let (mut cpu, mut mem) = machine();
    cpu.registers.a = 0b1100;
    cpu.execute(Instruction::AND_A_N8 { n8: 0b1010 }, &mut mem);
    assert_eq!(cpu.registers.a, 0b1000);
    assert!(cpu.registers.f.half_carry && !cpu.registers.f.carry);
    cpu.execute(Instruction::OR_A_N8 { n8: 0b0011 }, &mut mem);
    assert_eq!(cpu.registers.a, 0b1011);
    assert!(!cpu.registers.f.half_carry);
    cpu.execute(Instruction::XOR_A_N8 { n8: 0b1011 }, &mut mem);
    assert_eq!(cpu.registers.a, 0);
    assert!(cpu.registers.f.zero);
}

#[test]
fn inc_dec_wrap_and_track_the_low_nibble() {
    let (mut cpu, mut mem) = machine();
    cpu.registers.set_r8(&R8::B, 0xFF);
    cpu.execute(Instruction::INC_R8 { r8: R8::B }, &mut mem);
    assert_eq!(cpu.registers.b, 0);
    assert!(cpu.registers.f.zero && cpu.registers.f.half_carry);
    cpu.execute(Instruction::DEC_R8 { r8: R8::B }, &mut mem);
    assert_eq!(cpu.registers.b, 0xFF);
    assert!(cpu.registers.f.subtract && cpu.registers.f.half_carry);
    // 16-bit forms wrap with no flag effects
    cpu.registers.f.zero = false;
    cpu.registers.set_hl(0xFFFF);
    cpu.execute(Instruction::INC_R16 { r16: R16::HL }, &mut mem);
    assert_eq!(cpu.registers.get_hl(), 0);
    assert!(!cpu.registers.f.zero);
    cpu.execute(Instruction::DEC_R16 { r16: R16::HL }, &mut mem);
    assert_eq!(cpu.registers.get_hl(), 0xFFFF);
    cpu.registers.sp = 0;
    cpu.execute(Instruction::DEC_SP, &mut mem);
    assert_eq!(cpu.registers.sp, 0xFFFF);
    cpu.execute(Instruction::INC_SP, &mut mem);
    assert_eq!(cpu.registers.sp, 0);
}

#[test]
fn add_hl_uses_twelve_bit_half_carry() {
    let (mut cpu, mut mem) = machine();
    cpu.registers.set_hl(0x0FFF);
    cpu.registers.set_bc(0x0001);
    cpu.execute(Instruction::ADD_HL_R16 { r16: R16::BC }, &mut mem);
    assert_eq!(cpu.registers.get_hl(), 0x1000);
    assert!(cpu.registers.f.half_carry);
    assert!(!cpu.registers.f.carry);
    cpu.registers.set_hl(0xFFFF);
    cpu.registers.sp = 0x0001;
    cpu.execute(Instruction::ADD_HL_SP, &mut mem);
    assert_eq!(cpu.registers.get_hl(), 0);
    assert!(cpu.registers.f.zero);
    assert!(cpu.registers.f.carry);
}

#[test]
fn add_sp_signed_byte_uses_low_byte_carries() {
    let (mut cpu, mut mem) = machine();
    cpu.registers.sp = 0x00FF;
    let t = cpu.execute(Instruction::ADD_SP_E8 { e8: 1 }, &mut mem);
    assert_eq!(t, 16);
    assert_eq!(cpu.registers.sp, 0x0100);
    assert!(cpu.registers.f.half_carry && cpu.registers.f.carry);
    cpu.registers.sp = 0x0100;
    cpu.execute(Instruction::ADD_SP_E8 { e8: -1 }, &mut mem);
    assert_eq!(cpu.registers.sp, 0x00FF);
}

#[test]
fn ld_hl_sp_plus_offset_lands_in_hl() {
    let (mut cpu, mut mem) = machine();
    cpu.registers.sp = 0xC0F0;
    let t = cpu.execute(Instruction::LD_HL_SPE8 { e8: 0x20 }, &mut mem);
    assert_eq!(t, 12);
    assert_eq!(cpu.registers.get_hl(), 0xC110);
    assert_eq!(cpu.registers.sp, 0xC0F0); // the stack pointer is untouched
    assert!(!cpu.registers.f.zero);
}

#[test]
fn loads_move_bytes_between_registers_and_memory() {
    let (mut cpu, mut mem) = machine();
    cpu.execute(Instruction::LD_R8_N8 { dest: R8::B, n8: 0x42 }, &mut mem);
    cpu.execute(Instruction::LD_R8_R8 { dest: R8::C, src: R8::B }, &mut mem);
    assert_eq!(cpu.registers.c, 0x42);
    cpu.registers.set_hl(0xC000);
    cpu.execute(Instruction::LD_HL_PNTR_R8 { r8: R8::B }, &mut mem);
    assert_eq!(mem.read(0xC000), 0x42);
    cpu.execute(Instruction::LD_HL_PNTR_N8 { n8: 0x55 }, &mut mem);
    cpu.execute(Instruction::LD_R8_HL_PNTR { r8: R8::D }, &mut mem);
    assert_eq!(cpu.registers.d, 0x55);
    cpu.registers.a = 0x77;
    cpu.execute(Instruction::LD_N16_PNTR_A { n16: 0xC123 }, &mut mem);
    assert_eq!(mem.read(0xC123), 0x77);
    cpu.registers.a = 0;
    cpu.execute(Instruction::LD_A_N16_PNTR { n16: 0xC123 }, &mut mem);
    assert_eq!(cpu.registers.a, 0x77);
}

#[test]
fn pointer_stepping_loads_move_hl() {
    let (mut cpu, mut mem) = machine();
    cpu.registers.a = 0x11;
    cpu.registers.set_hl(0xC800);
    cpu.execute(Instruction::LD_HLI_PNTR_A, &mut mem);
    assert_eq!(mem.read(0xC800), 0x11);
    assert_eq!(cpu.registers.get_hl(), 0xC801);
    cpu.registers.a = 0x22;
    cpu.execute(Instruction::LD_HLD_PNTR_A, &mut mem);
    assert_eq!(mem.read(0xC801), 0x22);
    assert_eq!(cpu.registers.get_hl(), 0xC800);
    cpu.execute(Instruction::LD_A_HLI_PNTR, &mut mem);
    assert_eq!(cpu.registers.a, 0x11);
    assert_eq!(cpu.registers.get_hl(), 0xC801);
    cpu.execute(Instruction::LD_A_HLD_PNTR, &mut mem);
    assert_eq!(cpu.registers.a, 0x22);
    assert_eq!(cpu.registers.get_hl(), 0xC800);
}

#[test]
fn high_window_loads_respect_their_range() {
    let (mut cpu, mut mem) = machine();
    cpu.registers.a = 0x5A;
    cpu.execute(Instruction::LDH_N16_PNTR_A { n16: 0xFF80 }, &mut mem);
    assert_eq!(mem.read(0xFF80), 0x5A);
    // below the window: the store is suppressed
    cpu.execute(Instruction::LDH_N16_PNTR_A { n16: 0xC000 }, &mut mem);
    assert_eq!(mem.read(0xC000), 0);
    cpu.registers.a = 0;
    cpu.execute(Instruction::LDH_A_N16_PNTR { n16: 0xFF80 }, &mut mem);
    assert_eq!(cpu.registers.a, 0x5A);
    cpu.registers.c = 0x81;
    cpu.registers.a = 0x99;
    cpu.execute(Instruction::LDH_C_PNTR_A, &mut mem);
    assert_eq!(mem.read(0xFF81), 0x99);
    cpu.registers.a = 0;
    cpu.execute(Instruction::LDH_A_C_PNTR, &mut mem);
    assert_eq!(cpu.registers.a, 0x99);
}

#[test]
fn sp_stores_and_moves() {
    let (mut cpu, mut mem) = machine();
    cpu.execute(Instruction::LD_SP_N16 { n16: 0xCFEE }, &mut mem);
    assert_eq!(cpu.registers.sp, 0xCFEE);
    let t = cpu.execute(Instruction::LD_N16_PNTR_SP { n16: 0xC500 }, &mut mem);
    assert_eq!(t, 20);
    assert_eq!(mem.read(0xC500), 0xEE);
    assert_eq!(mem.read(0xC501), 0xCF);
    cpu.registers.set_hl(0xD000);
    cpu.execute(Instruction::LD_SP_HL, &mut mem);
    assert_eq!(cpu.registers.sp, 0xD000);
}

#[test]
fn rotates_move_the_evicted_bit_into_carry() {
    let (mut cpu, mut mem) = machine();
    // plain rotate left: bit 7 into carry and into bit 0
    cpu.registers.set_r8(&R8::B, 0b1000_0001);
    cpu.execute(Instruction::RLC_R8 { r8: R8::B }, &mut mem);
    assert_eq!(cpu.registers.b, 0b0000_0011);
    assert!(cpu.registers.f.carry);
    // rotate left through carry: the old carry enters at bit 0
    cpu.registers.f.carry = false;
    cpu.registers.set_r8(&R8::C, 0b1000_0000);
    cpu.execute(Instruction::RL_R8 { r8: R8::C }, &mut mem);
    assert_eq!(cpu.registers.c, 0);
    assert!(cpu.registers.f.zero && cpu.registers.f.carry);
    cpu.execute(Instruction::RL_R8 { r8: R8::C }, &mut mem);
    assert_eq!(cpu.registers.c, 1);
    assert!(!cpu.registers.f.carry);
    // plain rotate right: bit 0 into carry and into bit 7
    cpu.registers.set_r8(&R8::D, 0b0000_0001);
    cpu.execute(Instruction::RRC_R8 { r8: R8::D }, &mut mem);
    assert_eq!(cpu.registers.d, 0b1000_0000);
    assert!(cpu.registers.f.carry);
    // rotate right through carry: the old carry enters at bit 7
    cpu.registers.f.carry = true;
    cpu.registers.set_r8(&R8::E, 0);
    cpu.execute(Instruction::RR_R8 { r8: R8::E }, &mut mem);
    assert_eq!(cpu.registers.e, 0b1000_0000);
    assert!(!cpu.registers.f.carry);
}

#[test]
fn accumulator_rotates_through_carry_clear_zero() {
    let (mut cpu, mut mem) = machine();
    cpu.registers.a = 0b1000_0000;
    cpu.registers.f.carry = false;
    cpu.execute(Instruction::RLA, &mut mem);
    assert_eq!(cpu.registers.a, 0);
    assert!(!cpu.registers.f.zero); // RLA never sets zero
    assert!(cpu.registers.f.carry);
    cpu.registers.a = 1;
    cpu.execute(Instruction::RRA, &mut mem);
    assert_eq!(cpu.registers.a, 0b1000_0000); // the carry re-enters at bit 7
    assert!(cpu.registers.f.carry);
    assert!(!cpu.registers.f.zero);
}

#[test]
fn shifts_and_swap_on_registers_and_memory() {
    let (mut cpu, mut mem) = machine();
    cpu.registers.set_r8(&R8::B, 0b1100_0001);
    cpu.execute(Instruction::SLA_R8 { r8: R8::B }, &mut mem);
    assert_eq!(cpu.registers.b, 0b1000_0010);
    assert!(cpu.registers.f.carry);
    cpu.registers.set_r8(&R8::C, 0b1000_0010);
    cpu.execute(Instruction::SRA_R8 { r8: R8::C }, &mut mem);
    assert_eq!(cpu.registers.c, 0b1100_0001); // bit 7 kept in place
    assert!(!cpu.registers.f.carry);
    cpu.registers.set_r8(&R8::D, 0b1000_0011);
    cpu.execute(Instruction::SRL_R8 { r8: R8::D }, &mut mem);
    assert_eq!(cpu.registers.d, 0b0100_0001); // zero enters at bit 7
    assert!(cpu.registers.f.carry);
    cpu.registers.set_r8(&R8::E, 0xAB);
    cpu.execute(Instruction::SWAP_R8 { r8: R8::E }, &mut mem);
    assert_eq!(cpu.registers.e, 0xBA);
    assert!(!cpu.registers.f.carry);
    // the memory-operand forms land in the byte HL points to
    cpu.registers.set_hl(0xC700);
    mem.write(0xC700, 0x81);
    cpu.execute(Instruction::RLC_HL_PNTR, &mut mem);
    assert_eq!(mem.read(0xC700), 0x03);
    assert!(cpu.registers.f.carry);
    mem.write(0xC700, 0x3C);
    cpu.execute(Instruction::SWAP_HL_PNTR, &mut mem);
    assert_eq!(mem.read(0xC700), 0xC3);
}

#[test]
fn set_and_res_touch_exactly_one_bit() {
    let (mut cpu, mut mem) = machine();
    cpu.registers.set_r8(&R8::B, 0);
    cpu.execute(Instruction::SET_U3_R8 { u3: U3::Zero, r8: R8::B }, &mut mem);
    assert_eq!(cpu.registers.b, 0b0000_0001);
    cpu.execute(Instruction::SET_U3_R8 { u3: U3::Five, r8: R8::B }, &mut mem);
    assert_eq!(cpu.registers.b, 0b0010_0001);
    cpu.execute(Instruction::RES_U3_R8 { u3: U3::Zero, r8: R8::B }, &mut mem);
    assert_eq!(cpu.registers.b, 0b0010_0000);
    cpu.registers.set_hl(0xC600);
    mem.write(0xC600, 0xFF);
    cpu.execute(Instruction::RES_U3_HL_PNTR { u3: U3::Seven }, &mut mem);
    assert_eq!(mem.read(0xC600), 0x7F);
    cpu.execute(Instruction::SET_U3_HL_PNTR { u3: U3::Seven }, &mut mem);
    assert_eq!(mem.read(0xC600), 0xFF);
}

#[test]
fn cpl_ccf_scf_adjust_flags() {
    let (mut cpu, mut mem) = machine();
    cpu.registers.a = 0b1010_0101;
    cpu.execute(Instruction::CPL, &mut mem);
    assert_eq!(cpu.registers.a, 0b0101_1010);
    assert!(cpu.registers.f.subtract && cpu.registers.f.half_carry);
    cpu.execute(Instruction::SCF, &mut mem);
    assert!(cpu.registers.f.carry);
    assert!(!cpu.registers.f.subtract && !cpu.registers.f.half_carry);
    cpu.execute(Instruction::CCF, &mut mem);
    assert!(!cpu.registers.f.carry);
    cpu.execute(Instruction::CCF, &mut mem);
    assert!(cpu.registers.f.carry);
}

#[test]
fn daa_corrects_packed_bcd_addition() {
    let (mut cpu, mut mem) = machine();
    // 0x19 + 0x28 = 0x41 raw; decimal 19 + 28 = 47
    cpu.registers.a = 0x19;
    cpu.execute(Instruction::ADD_A_N8 { n8: 0x28 }, &mut mem);
    assert_eq!(cpu.registers.a, 0x41);
    assert!(cpu.registers.f.half_carry);
    cpu.execute(Instruction::DAA, &mut mem);
    assert_eq!(cpu.registers.a, 0x47);
    assert!(!cpu.registers.f.carry);
}

#[test]
fn jumps_load_the_program_counter() {
    let (mut cpu, mut mem) = machine();
    let t = cpu.execute(Instruction::JP_N16 { n16: 0x8000 }, &mut mem);
    assert_eq!(t, 16);
    assert_eq!(cpu.registers.pc, 0x8000);
    cpu.registers.set_hl(0x9ABC);
    let t = cpu.execute(Instruction::JP_HL, &mut mem);
    assert_eq!(t, 4);
    assert_eq!(cpu.registers.pc, 0x9ABC);
}

#[test]
fn halt_suspends_unless_an_interrupt_is_pending() {
    // interrupts enabled: halt
    let (mut cpu, mut mem) = machine();
    cpu.execute(Instruction::EI, &mut mem);
    cpu.execute(Instruction::NOP, &mut mem);
    assert_eq!(cpu.ime_state, ImeState::Enabled);
    cpu.execute(Instruction::HALT, &mut mem);
    assert!(cpu.low_power_mode);
    // interrupts disabled, nothing pending: halt all the same
    let (mut cpu, mut mem) = machine();
    cpu.execute(Instruction::HALT, &mut mem);
    assert!(cpu.low_power_mode);
    // interrupts disabled but one enabled and requested: falls through
    let (mut cpu, mut mem) = machine();
    mem.write(0xFFFF, 0x04);
    mem.write(0xFF0F, 0x04);
    cpu.execute(Instruction::HALT, &mut mem);
    assert!(!cpu.low_power_mode);
}

#[test]
fn stop_enters_the_deeper_low_power_mode() {
    let (mut cpu, mut mem) = machine();
    cpu.execute(Instruction::STOP, &mut mem);
    assert!(cpu.very_low_power_mode);
    assert!(!cpu.low_power_mode);
}

#[test]
fn nop_does_nothing_but_cost() {
    let (mut cpu, mut mem) = machine();
    let before = cpu;
    let t = cpu.execute(Instruction::NOP, &mut mem);
    assert_eq!(t, 1);
    assert_eq!(cpu, before);
}

#[test]
fn memory_operand_alu_reads_through_hl() {
    let (mut cpu, mut mem) = machine();
    cpu.registers.set_hl(0xC900);
    mem.write(0xC900, 0x0F);
    cpu.registers.a = 0x01;
    cpu.execute(Instruction::ADD_A_HL_PNTR, &mut mem);
    assert_eq!(cpu.registers.a, 0x10);
    assert!(cpu.registers.f.half_carry);
    mem.write(0xC900, 0x10);
    cpu.execute(Instruction::CP_A_HL_PNTR, &mut mem);
    assert!(cpu.registers.f.zero);
    mem.write(0xC900, 0xFF);
    cpu.execute(Instruction::INC_HL_PNTR, &mut mem);
    assert_eq!(mem.read(0xC900), 0);
    assert!(cpu.registers.f.zero);
    cpu.execute(Instruction::DEC_HL_PNTR, &mut mem);
    assert_eq!(mem.read(0xC900), 0xFF);
}

#[test]
fn stack_wraps_at_the_address_space_edge() {
    let (mut cpu, mut mem) = machine();
    cpu.registers.pc = 0x1234;
    cpu.registers.sp = 0x0001;
    cpu.execute(Instruction::CALL_N16 { n16: 0x4000 }, &mut mem);
    assert_eq!(cpu.registers.sp, 0xFFFF);
    assert_eq!(mem.read(0x0000), 0x12); // high byte at the first push
    // low byte at the wrapped address 0xFFFF, the interrupt-enable byte
    assert_eq!(mem.read(0xFFFF), 0x34);
}
