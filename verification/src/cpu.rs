//! The execution engine: given one decoded instruction and mutable access to
//! the register file and the address space, performs the instruction's full
//! architectural effect exactly once and returns its cycle cost. Owns the
//! interrupt-master-enable delay state machine, advanced once at the end of
//! every executed instruction.

use vstd::prelude::*;
use vstd::wrapping::u16_specs;
use vstd::wrapping::u8_specs;

use crate::instructions::{Condition, Instruction, R16, R8, U3};
use crate::memory::{spec_mem_wf, spec_read, spec_write, Memory, MemoryView};
use crate::registers::{
    flags_from_u8, flags_to_u8, spec_flags_from_u8, spec_flags_to_u8, spec_get_r16, spec_get_r8,
    spec_hi, spec_lo, spec_pair, spec_registers_new, spec_set_r16, spec_set_r8, Flags, Registers,
};

verus! {

/// The interrupt-master-enable state machine. Enabling interrupts always
/// takes effect one full instruction after the enabling instruction
/// finishes, never immediately; disabling is immediate.
#[derive(Clone, Copy, PartialEq, Eq, Structural, Debug)]
pub enum ImeState {
    Unset,
    PendingNewInstruction,
    PendingInstructionCompletion,
    Enabled,
}

/// The CPU: the register file, the interrupt-enable state machine and the
/// two low-power mode flags (inspected by a driving loop, never blocking).
#[derive(Clone, Copy, PartialEq, Eq, Structural, Debug)]
pub struct Cpu {
    pub registers: Registers,
    pub ime_state: ImeState,
    pub low_power_mode: bool,
    pub very_low_power_mode: bool,
}

/// The power-on CPU: all-zero registers, interrupts disabled, running.
pub open spec fn spec_cpu_new() -> Cpu {
    Cpu {
        registers: spec_registers_new(),
        ime_state: ImeState::Unset,
        low_power_mode: false,
        very_low_power_mode: false,
    }
}

/// The CPU with its flag register replaced.
pub open spec fn spec_with_flags(c: Cpu, f: Flags) -> Cpu {
    Cpu { registers: Registers { f, ..c.registers }, ..c }
}

/// The CPU with only the carry flag replaced.
pub open spec fn spec_with_carry(c: Cpu, carry: bool) -> Cpu {
    spec_with_flags(c, Flags { carry, ..c.registers.f })
}

/// Addition into the accumulator. The carry variant also adds the carry
/// flag's value after the base addition; an overflow from that extra one
/// also sets carry. Zero is set iff the result is zero, subtract is always
/// cleared, half-carry is set iff the low nibbles of the base operands
/// overflow, carry iff the full 8-bit addition overflows.
pub open spec fn spec_add_a(c: Cpu, rhs: u8, with_carry: bool) -> Cpu {
    let a = c.registers.a;
    let extra: u8 = if with_carry && c.registers.f.carry {
        1
    } else {
        0
    };
    let total = a + rhs + extra;
    let sum = (total % 0x100) as u8;
    Cpu {
        registers: Registers {
            a: sum,
            f: Flags {
                zero: sum == 0,
                subtract: false,
                half_carry: (a & 0xF) + (rhs & 0xF) > 0xF,
                carry: total > 0xFF,
            },
            ..c.registers
        },
        ..c
    }
}

/// Addition into the HL pair: zero iff the result is zero, subtract cleared,
/// half-carry from the low 12 bits, carry from the full 16-bit addition.
pub open spec fn spec_add_hl(c: Cpu, rhs: u16) -> Cpu {
    let hl = spec_get_r16(c.registers, R16::HL);
    let sum = ((hl + rhs) % 0x10000) as u16;
    let regs = spec_set_r16(c.registers, R16::HL, sum);
    Cpu {
        registers: Registers {
            f: Flags {
                zero: sum == 0,
                subtract: false,
                half_carry: (hl & 0xFFF) + (rhs & 0xFFF) > 0xFFF,
                carry: hl + rhs > 0xFFFF,
            },
            ..regs
        },
        ..c
    }
}

/// Addition of a signed byte into the stack pointer: zero iff the result is
/// zero, subtract cleared, half-carry from the low 4 bits, carry from the
/// low 8 bits.
pub open spec fn spec_add_sp(c: Cpu, e8: i8) -> Cpu {
    let sp = c.registers.sp;
    let rhs = e8 as u16;
    let sum = ((sp + rhs) % 0x10000) as u16;
    Cpu {
        registers: Registers {
            sp: sum,
            f: Flags {
                zero: sum == 0,
                subtract: false,
                half_carry: (sp & 0xF) + (rhs & 0xF) > 0xF,
                carry: (sp & 0xFF) + (rhs & 0xFF) > 0xFF,
            },
            ..c.registers
        },
        ..c
    }
}

/// Bitwise AND into the accumulator: zero tracks the result, half-carry is
/// forced true, subtract and carry cleared.
pub open spec fn spec_and_a(c: Cpu, rhs: u8) -> Cpu {
    let a = (c.registers.a & rhs) as u8;
    Cpu {
        registers: Registers {
            a,
            f: Flags { zero: a == 0, subtract: false, half_carry: true, carry: false },
            ..c.registers
        },
        ..c
    }
}

/// Bitwise OR into the accumulator: zero tracks the result, the other three
/// flags are cleared.
pub open spec fn spec_or_a(c: Cpu, rhs: u8) -> Cpu {
    let a = (c.registers.a | rhs) as u8;
    Cpu {
        registers: Registers {
            a,
            f: Flags { zero: a == 0, subtract: false, half_carry: false, carry: false },
            ..c.registers
        },
        ..c
    }
}

/// Bitwise XOR into the accumulator: zero tracks the result, the other three
/// flags are cleared.
pub open spec fn spec_xor_a(c: Cpu, rhs: u8) -> Cpu {
    let a = (c.registers.a ^ rhs) as u8;
    Cpu {
        registers: Registers {
            a,
            f: Flags { zero: a == 0, subtract: false, half_carry: false, carry: false },
            ..c.registers
        },
        ..c
    }
}

/// Subtraction from the accumulator: zero iff the operands are equal,
/// subtract set, half-carry iff the low nibble borrows, carry iff the full
/// subtraction borrows.
pub open spec fn spec_sub_a(c: Cpu, value: u8) -> Cpu {
    let a = c.registers.a;
    let diff = u8_specs::wrapping_sub(a, value);
    Cpu {
        registers: Registers {
            a: diff,
            f: Flags {
                zero: diff == 0,
                subtract: true,
                half_carry: (a & 0xF) < (value & 0xF),
                carry: value > a,
            },
            ..c.registers
        },
        ..c
    }
}

/// Subtraction with carry from the accumulator: the carry flag's value is
/// borrowed in addition to the operand.
pub open spec fn spec_sbc_a(c: Cpu, value: u8) -> Cpu {
    let a = c.registers.a;
    let extra: u8 = if c.registers.f.carry {
        1
    } else {
        0
    };
    let diff = u8_specs::wrapping_sub(u8_specs::wrapping_sub(a, value), extra);
    Cpu {
        registers: Registers {
            a: diff,
            f: Flags {
                zero: diff == 0,
                subtract: true,
                half_carry: (a & 0xF) < (value & 0xF) + extra,
                carry: (a as int) < value + extra,
            },
            ..c.registers
        },
        ..c
    }
}

/// Comparison: the flags of a subtraction, with the accumulator untouched.
pub open spec fn spec_cp_a(c: Cpu, subtrahend: u8) -> Cpu {
    let a = c.registers.a;
    spec_with_flags(
        c,
        Flags {
            zero: a == subtrahend,
            subtract: true,
            half_carry: (a & 0xF) < (subtrahend & 0xF),
            carry: subtrahend > a,
        },
    )
}

/// The single-bit mask a 3-bit index selects.
pub open spec fn spec_bit_mask(u3: U3) -> u8 {
    match u3 {
        U3::Zero => 0x01,
        U3::One => 0x02,
        U3::Two => 0x04,
        U3::Three => 0x08,
        U3::Four => 0x10,
        U3::Five => 0x20,
        U3::Six => 0x40,
        U3::Seven => 0x80,
    }
}

/// The single-bit mask a 3-bit index selects.
pub fn u3_mask(u3: &U3) -> (r: u8)
    ensures
        r == spec_bit_mask(*u3),
{
    match u3 {
        U3::Zero => 0x01,
        U3::One => 0x02,
        U3::Two => 0x04,
        U3::Three => 0x08,
        U3::Four => 0x10,
        U3::Five => 0x20,
        U3::Six => 0x40,
        U3::Seven => 0x80,
    }
}

/// Bit test: the zero flag is set iff the tested bit is not set; half-carry
/// is forced true, subtract cleared, carry untouched.
pub open spec fn spec_bit_test(c: Cpu, u3: U3, byte: u8) -> Cpu {
    spec_with_flags(
        c,
        Flags {
            zero: byte & spec_bit_mask(u3) == 0,
            subtract: false,
            half_carry: true,
            carry: c.registers.f.carry,
        },
    )
}

/// Whether a branch condition holds of the current flags.
pub open spec fn spec_check_condition(c: Cpu, condition: Condition) -> bool {
    match condition {
        Condition::Z => c.registers.f.zero,
        Condition::NZ => !c.registers.f.zero,
        Condition::C => c.registers.f.carry,
        Condition::NC => !c.registers.f.carry,
    }
}

/// The program counter displaced by a signed offset, wrapping.
pub open spec fn spec_position_from_offset(c: Cpu, offset: i8) -> u16 {
    u16_specs::wrapping_add(c.registers.pc, offset as u16)
}

/// EI's effect: from any non-pending state, enabling starts its delay; an
/// already-pending enable is left to run its course.
pub open spec fn spec_set_ime(c: Cpu) -> Cpu {
    if c.ime_state == ImeState::PendingNewInstruction || c.ime_state
        == ImeState::PendingInstructionCompletion {
        c
    } else {
        Cpu { ime_state: ImeState::PendingNewInstruction, ..c }
    }
}

/// The end-of-instruction advance of the interrupt-enable state machine:
/// a pending completion becomes set, a fresh request becomes pending
/// completion, everything else is untouched.
pub open spec fn spec_ime_epilogue(ime: ImeState) -> ImeState {
    match ime {
        ImeState::PendingInstructionCompletion => ImeState::Enabled,
        ImeState::PendingNewInstruction => ImeState::PendingInstructionCompletion,
        _ => ime,
    }
}

/// Plain rotate left: bit 7 moves into both the carry flag and bit 0.
pub open spec fn spec_rlc_val(v: u8) -> u8 {
    ((v << 1) | (v >> 7)) as u8
}

/// Rotate left through carry: the old carry enters at bit 0, bit 7 leaves
/// into the carry flag.
pub open spec fn spec_rl_val(v: u8, carry_in: bool) -> u8 {
    ((v << 1) | (if carry_in {
        1u8
    } else {
        0u8
    })) as u8
}

/// Plain rotate right: bit 0 moves into both the carry flag and bit 7.
pub open spec fn spec_rrc_val(v: u8) -> u8 {
    ((v >> 1) | (v << 7)) as u8
}

/// Rotate right through carry: the old carry enters at bit 7, bit 0 leaves
/// into the carry flag.
pub open spec fn spec_rr_val(v: u8, carry_in: bool) -> u8 {
    ((v >> 1) | (if carry_in {
        0x80u8
    } else {
        0u8
    })) as u8
}

/// Shift left arithmetically: bit 7 leaves into the carry flag, zero enters.
pub open spec fn spec_sla_val(v: u8) -> u8 {
    (v << 1) as u8
}

/// Shift right arithmetically: bit 0 leaves into the carry flag, bit 7 is
/// kept in place.
pub open spec fn spec_sra_val(v: u8) -> u8 {
    ((v >> 1) | (v & 0x80)) as u8
}

/// Shift right logically: bit 0 leaves into the carry flag, zero enters.
pub open spec fn spec_srl_val(v: u8) -> u8 {
    (v >> 1) as u8
}

/// The two nibbles exchanged.
pub open spec fn spec_swap_val(v: u8) -> u8 {
    (((v & 0xF) << 4) | (v >> 4)) as u8
}

/// A register or memory byte with one bit cleared, and all four flags
/// cleared with it.
pub open spec fn spec_res_flags() -> Flags {
    Flags { zero: false, subtract: false, half_carry: false, carry: false }
}

/// A byte with bit `bit` cleared.
pub open spec fn spec_res_val(value: u8, bit: u8) -> u8 {
    (value & !(1u8 << bit)) as u8
}

/// A register with one bit cleared, and all four flags cleared with it.
pub open spec fn spec_res_r8(c: Cpu, bit: u8, r8: R8) -> Cpu {
    let value = spec_res_val(spec_get_r8(c.registers, r8), bit);
    Cpu { registers: Registers { f: spec_res_flags(), ..spec_set_r8(c.registers, r8, value) }, ..c }
}

/// The decimal-adjust correction: 0x06 is added when the low nibble is out
/// of range or a half-carry happened (clearing carry), then 0x60 when the
/// high nibble is out of range or carry is set (setting carry); zero is
/// recomputed from the corrected value.
pub open spec fn spec_daa(c: Cpu) -> Cpu {
    let a = c.registers.a;
    let adj1 = if (a & 0x0F) > 9 || c.registers.f.half_carry {
        u8_specs::wrapping_add(a, 0x06)
    } else {
        a
    };
    let carry1 = if (a & 0x0F) > 9 || c.registers.f.half_carry {
        false
    } else {
        c.registers.f.carry
    };
    let adj2 = if (a & 0xF0) > 0x90 || carry1 {
        u8_specs::wrapping_add(adj1, 0x60)
    } else {
        adj1
    };
    let carry2 = if (a & 0xF0) > 0x90 || carry1 {
        true
    } else {
        carry1
    };
    Cpu {
        registers: Registers {
            a: adj2,
            f: Flags { zero: adj2 == 0, carry: carry2, ..c.registers.f },
            ..c.registers
        },
        ..c
    }
}

/// A register pair decremented by one, wrapping, with no flag effects.
pub open spec fn spec_dec_r16(c: Cpu, r16: R16) -> Cpu {
    let value = spec_get_r16(c.registers, r16);
    Cpu { registers: spec_set_r16(c.registers, r16, u16_specs::wrapping_sub(value, 1)), ..c }
}

/// A call's effect: the current program counter is pushed onto the stack,
/// high byte then low byte, pre-decrementing the stack pointer for each
/// push; then the program counter is loaded with the target.
pub open spec fn spec_call(c: Cpu, m: MemoryView, n16: u16) -> (Cpu, MemoryView) {
    let pc = c.registers.pc;
    let sp1 = u16_specs::wrapping_sub(c.registers.sp, 1);
    let m1 = spec_write(m, sp1, spec_hi(pc));
    let sp2 = u16_specs::wrapping_sub(sp1, 1);
    let m2 = spec_write(m1, sp2, spec_lo(pc));
    (Cpu { registers: Registers { sp: sp2, pc: n16, ..c.registers }, ..c }, m2)
}

/// A return's effect: the program counter is popped from the stack in the
/// mirror order of a call, low byte first, post-incrementing the stack
/// pointer for each pop.
pub open spec fn spec_ret(c: Cpu, m: MemoryView) -> Cpu {
    let sp = c.registers.sp;
    let lower = spec_read(m, sp);
    let sp1 = u16_specs::wrapping_add(sp, 1);
    let upper = spec_read(m, sp1);
    let sp2 = u16_specs::wrapping_add(sp1, 1);
    Cpu { registers: Registers { sp: sp2, pc: spec_pair(upper, lower), ..c.registers }, ..c }
}

/// HALT's effect. With interrupts enabled, the CPU suspends instruction
/// fetch until an interrupt line is asserted. With interrupts disabled the
/// halt still resolves by pending-interrupt state: if no interrupt is both
/// enabled and requested the CPU suspends all the same; if one is already
/// pending the halt falls through and execution continues (the fetch-stage
/// duplicate-read quirk of the real hardware belongs to the out-of-scope
/// decode stage).
pub open spec fn spec_halt(c: Cpu, m: MemoryView) -> Cpu {
    if c.ime_state == ImeState::Enabled {
        Cpu { low_power_mode: true, ..c }
    } else if m.interrupt_enable & m.interrupt_flag & 0x1F == 0 {
        Cpu { low_power_mode: true, ..c }
    } else {
        c
    }
}

/// The CPU with only the accumulator replaced.
pub open spec fn spec_set_a(c: Cpu, value: u8) -> Cpu {
    Cpu { registers: Registers { a: value, ..c.registers }, ..c }
}

/// The CPU with only the program counter replaced.
pub open spec fn spec_jump_to(c: Cpu, n16: u16) -> Cpu {
    Cpu { registers: Registers { pc: n16, ..c.registers }, ..c }
}

/// A rotate or shift landing in a register: the result is stored, zero
/// tracks the result, subtract and half-carry are cleared, carry is the
/// evicted bit.
pub open spec fn spec_rot_apply_r8(c: Cpu, r8: R8, val: u8, carry: bool) -> Cpu {
    Cpu {
        registers: Registers {
            f: Flags { zero: val == 0, subtract: false, half_carry: false, carry },
            ..spec_set_r8(c.registers, r8, val)
        },
        ..c
    }
}

/// A rotate or shift landing in the byte HL points to.
pub open spec fn spec_rot_apply_hl(c: Cpu, m: MemoryView, val: u8, carry: bool) -> (
    Cpu,
    MemoryView,
) {
    let hl = spec_get_r16(c.registers, R16::HL);
    (
        spec_with_flags(c, Flags { zero: val == 0, subtract: false, half_carry: false, carry }),
        spec_write(m, hl, val),
    )
}

/// A rotate landing in the accumulator; whether zero tracks the result
/// differs per variant, so it is passed in.
pub open spec fn spec_rot_apply_a(c: Cpu, val: u8, zero: bool, carry: bool) -> Cpu {
    Cpu {
        registers: Registers {
            a: val,
            f: Flags { zero, subtract: false, half_carry: false, carry },
            ..c.registers
        },
        ..c
    }
}

/// A byte incremented by one, wrapping.
pub open spec fn spec_inc8_val(val: u8) -> u8 {
    u8_specs::wrapping_add(val, 1)
}

/// The flags of an 8-bit increment: zero tracks the result, subtract is
/// cleared, half-carry is set iff the low nibble overflows, carry untouched.
pub open spec fn spec_inc8_flags(c: Cpu, val: u8) -> Flags {
    Flags {
        zero: spec_inc8_val(val) == 0,
        subtract: false,
        half_carry: val & 0xF == 0xF,
        carry: c.registers.f.carry,
    }
}

/// A byte decremented by one, wrapping.
pub open spec fn spec_dec8_val(val: u8) -> u8 {
    u8_specs::wrapping_sub(val, 1)
}

/// The flags of an 8-bit decrement: zero tracks the result, subtract is set,
/// half-carry is set iff the low nibble borrows, carry untouched.
pub open spec fn spec_dec8_flags(c: Cpu, val: u8) -> Flags {
    Flags {
        zero: spec_dec8_val(val) == 0,
        subtract: true,
        half_carry: val & 0xF == 0,
        carry: c.registers.f.carry,
    }
}

/// One instruction's architectural effect, before the end-of-instruction
/// advance of the interrupt-enable machine: the CPU and address space after
/// the instruction, and its cycle cost (conditional forms cost more when
/// taken).
#[verifier::opaque]
pub open spec fn spec_step_pre(c: Cpu, m: MemoryView, i: Instruction) -> (Cpu, MemoryView, u8) {
    let hl = spec_get_r16(c.registers, R16::HL);
    let sp = c.registers.sp;
    match i {
        Instruction::ADC_A_R8 { r8 } => (spec_add_a(c, spec_get_r8(c.registers, r8), true), m, 4),
        Instruction::ADC_A_HL_PNTR => (spec_add_a(c, spec_read(m, hl), true), m, 8),
        Instruction::ADC_A_N8 { n8 } => (spec_add_a(c, n8, true), m, 8),
        Instruction::ADD_A_R8 { r8 } => (spec_add_a(c, spec_get_r8(c.registers, r8), false), m, 4),
        Instruction::ADD_A_HL_PNTR => (spec_add_a(c, spec_read(m, hl), false), m, 8),
        Instruction::ADD_A_N8 { n8 } => (spec_add_a(c, n8, false), m, 8),
        Instruction::ADD_HL_R16 { r16 } => (spec_add_hl(c, spec_get_r16(c.registers, r16)), m, 8),
        Instruction::ADD_HL_SP => (spec_add_hl(c, sp), m, 8),
        Instruction::ADD_SP_E8 { e8 } => (spec_add_sp(c, e8), m, 16),
        Instruction::AND_A_R8 { r8 } => (spec_and_a(c, spec_get_r8(c.registers, r8)), m, 4),
        Instruction::AND_A_HL_PNTR => (spec_and_a(c, spec_read(m, hl)), m, 8),
        Instruction::AND_A_N8 { n8 } => (spec_and_a(c, n8), m, 8),
        Instruction::BIT_U3_R8 { u3, r8 } => (
            spec_bit_test(c, u3, spec_get_r8(c.registers, r8)),
            m,
            8,
        ),
        Instruction::BIT_U3_HL_PNTR { u3 } => (spec_bit_test(c, u3, spec_read(m, hl)), m, 12),
        Instruction::CALL_N16 { n16 } => {
            let (c1, m1) = spec_call(c, m, n16);
            (c1, m1, 24)
        },
        Instruction::CALL_CC_N16 { condition, n16 } => {
            if spec_check_condition(c, condition) {
                let (c1, m1) = spec_call(c, m, n16);
                (c1, m1, 24)
            } else {
                (c, m, 12)
            }
        },
        Instruction::CCF => (spec_with_carry(c, !c.registers.f.carry), m, 4),
        Instruction::CP_A_R8 { r8 } => (spec_cp_a(c, spec_get_r8(c.registers, r8)), m, 4),
        Instruction::CP_A_N8 { n8 } => (spec_cp_a(c, n8), m, 8),
        Instruction::CP_A_HL_PNTR => (spec_cp_a(c, spec_read(m, hl)), m, 8),
        Instruction::CPL => (
            Cpu {
                registers: Registers {
                    a: !c.registers.a,
                    f: Flags { subtract: true, half_carry: true, ..c.registers.f },
                    ..c.registers
                },
                ..c
            },
            m,
            4,
        ),
        Instruction::DAA => (spec_daa(c), m, 4),
        Instruction::DEC_R8 { r8 } => {
            let val = spec_get_r8(c.registers, r8);
            (
                Cpu {
                    registers: Registers {
                        f: spec_dec8_flags(c, val),
                        ..spec_set_r8(c.registers, r8, spec_dec8_val(val))
                    },
                    ..c
                },
                m,
                4,
            )
        },
        Instruction::DEC_HL_PNTR => {
            let val = spec_read(m, hl);
            (
                spec_with_flags(c, spec_dec8_flags(c, val)),
                spec_write(m, hl, spec_dec8_val(val)),
                12,
            )
        },
        Instruction::DEC_R16 { r16 } => (spec_dec_r16(c, r16), m, 8),
        Instruction::DEC_SP => (
            Cpu { registers: Registers { sp: u16_specs::wrapping_sub(sp, 1), ..c.registers }, ..c },
            m,
            8,
        ),
        Instruction::DI => (Cpu { ime_state: ImeState::Unset, ..c }, m, 4),
        Instruction::EI => (spec_set_ime(c), m, 4),
        Instruction::HALT => (spec_halt(c, m), m, 4),
        Instruction::INC_R8 { r8 } => {
            let val = spec_get_r8(c.registers, r8);
            (
                Cpu {
                    registers: Registers {
                        f: spec_inc8_flags(c, val),
                        ..spec_set_r8(c.registers, r8, spec_inc8_val(val))
                    },
                    ..c
                },
                m,
                4,
            )
        },
        Instruction::INC_HL_PNTR => {
            let val = spec_read(m, hl);
            (
                spec_with_flags(c, spec_inc8_flags(c, val)),
                spec_write(m, hl, spec_inc8_val(val)),
                12,
            )
        },
        Instruction::INC_R16 { r16 } => {
            let val = spec_get_r16(c.registers, r16);
            (
                Cpu {
                    registers: spec_set_r16(c.registers, r16, u16_specs::wrapping_add(val, 1)),
                    ..c
                },
                m,
                8,
            )
        },
        Instruction::INC_SP => (
            Cpu { registers: Registers { sp: u16_specs::wrapping_add(sp, 1), ..c.registers }, ..c },
            m,
            8,
        ),
        Instruction::JP_N16 { n16 } => (spec_jump_to(c, n16), m, 16),
        Instruction::JP_CC_N16 { condition, n16 } => {
            if spec_check_condition(c, condition) {
                (spec_jump_to(c, n16), m, 16)
            } else {
                (c, m, 12)
            }
        },
        Instruction::JP_HL => (spec_jump_to(c, hl), m, 4),
        Instruction::JR_N16 { offset } => (
            spec_jump_to(c, spec_position_from_offset(c, offset)),
            m,
            12,
        ),
        Instruction::JR_CC_N16 { condition, offset } => {
            if spec_check_condition(c, condition) {
                (spec_jump_to(c, spec_position_from_offset(c, offset)), m, 12)
            } else {
                (c, m, 8)
            }
        },
        Instruction::LD_R8_R8 { dest, src } => (
            Cpu { registers: spec_set_r8(c.registers, dest, spec_get_r8(c.registers, src)), ..c },
            m,
            4,
        ),
        Instruction::LD_R8_N8 { dest, n8 } => (
            Cpu { registers: spec_set_r8(c.registers, dest, n8), ..c },
            m,
            8,
        ),
        Instruction::LD_R16_R16 { dest, src } => (
            Cpu { registers: spec_set_r16(c.registers, dest, spec_get_r16(c.registers, src)), ..c },
            m,
            12,
        ),
        Instruction::LD_HL_PNTR_R8 { r8 } => (
            c,
            spec_write(m, hl, spec_get_r8(c.registers, r8)),
            8,
        ),
        Instruction::LD_HL_PNTR_N8 { n8 } => (c, spec_write(m, hl, n8), 12),
        Instruction::LD_R8_HL_PNTR { r8 } => (
            Cpu { registers: spec_set_r8(c.registers, r8, spec_read(m, hl)), ..c },
            m,
            8,
        ),
        Instruction::LD_R16_PNTR_A { r16 } => (
            c,
            spec_write(m, spec_get_r16(c.registers, r16), c.registers.a),
            8,
        ),
        Instruction::LD_N16_PNTR_A { n16 } => (c, spec_write(m, n16, c.registers.a), 16),
        Instruction::LDH_N16_PNTR_A { n16 } => (
            c,
            if 0xFF00 <= n16 < 0xFFFF {
                spec_write(m, n16, c.registers.a)
            } else {
                m
            },
            12,
        ),
        Instruction::LDH_C_PNTR_A => (
            c,
            spec_write(m, (0xFF00 + c.registers.c) as u16, c.registers.a),
            8,
        ),
        Instruction::LD_A_R16_PNTR { r16 } => (
            spec_set_a(c, spec_read(m, spec_get_r16(c.registers, r16))),
            m,
            8,
        ),
        Instruction::LD_A_N16_PNTR { n16 } => (spec_set_a(c, spec_read(m, n16)), m, 16),
        Instruction::LDH_A_N16_PNTR { n16 } => (
            if 0xFF00 <= n16 < 0xFFFF {
                spec_set_a(c, spec_read(m, n16))
            } else {
                c
            },
            m,
            12,
        ),
        Instruction::LDH_A_C_PNTR => (
            spec_set_a(c, spec_read(m, (0xFF00 + c.registers.c) as u16)),
            m,
            8,
        ),
        Instruction::LD_HLI_PNTR_A => (
            Cpu {
                registers: spec_set_r16(c.registers, R16::HL, u16_specs::wrapping_add(hl, 1)),
                ..c
            },
            spec_write(m, hl, c.registers.a),
            8,
        ),
        Instruction::LD_HLD_PNTR_A => (
            Cpu {
                registers: spec_set_r16(c.registers, R16::HL, u16_specs::wrapping_sub(hl, 1)),
                ..c
            },
            spec_write(m, hl, c.registers.a),
            8,
        ),
        Instruction::LD_A_HLI_PNTR => {
            let c1 = spec_set_a(c, spec_read(m, hl));
            (
                Cpu {
                    registers: spec_set_r16(c1.registers, R16::HL, u16_specs::wrapping_add(hl, 1)),
                    ..c1
                },
                m,
                8,
            )
        },
        Instruction::LD_A_HLD_PNTR => {
            let c1 = spec_set_a(c, spec_read(m, hl));
            (
                Cpu {
                    registers: spec_set_r16(c1.registers, R16::HL, u16_specs::wrapping_sub(hl, 1)),
                    ..c1
                },
                m,
                8,
            )
        },
        Instruction::LD_SP_N16 { n16 } => (
            Cpu { registers: Registers { sp: n16, ..c.registers }, ..c },
            m,
            12,
        ),
        Instruction::LD_N16_PNTR_SP { n16 } => (
            c,
            spec_write(
                spec_write(m, n16, spec_lo(sp)),
                u16_specs::wrapping_add(n16, 1),
                spec_hi(sp),
            ),
            20,
        ),
        Instruction::LD_HL_SPE8 { e8 } => {
            let rhs = e8 as u16;
            let sum = u16_specs::wrapping_add(sp, rhs);
            (
                Cpu {
                    registers: Registers {
                        f: Flags {
                            zero: false,
                            subtract: false,
                            half_carry: (sp & 0xF) + (rhs & 0xF) > 0xF,
                            carry: (sp & 0xFF) + (rhs & 0xFF) > 0xFF,
                        },
                        ..spec_set_r16(c.registers, R16::HL, sum)
                    },
                    ..c
                },
                m,
                12,
            )
        },
        Instruction::LD_SP_HL => (
            Cpu { registers: Registers { sp: hl, ..c.registers }, ..c },
            m,
            8,
        ),
        Instruction::NOP => (c, m, 1),
        Instruction::OR_A_R8 { r8 } => (spec_or_a(c, spec_get_r8(c.registers, r8)), m, 4),
        Instruction::OR_A_HL_PNTR => (spec_or_a(c, spec_read(m, hl)), m, 8),
        Instruction::OR_A_N8 { n8 } => (spec_or_a(c, n8), m, 8),
        Instruction::POP_AF => {
            let f = spec_flags_from_u8(spec_read(m, sp));
            let a = spec_read(m, u16_specs::wrapping_add(sp, 1));
            (
                Cpu {
                    registers: Registers {
                        a,
                        f,
                        sp: u16_specs::wrapping_add(u16_specs::wrapping_add(sp, 1), 1),
                        ..c.registers
                    },
                    ..c
                },
                m,
                12,
            )
        },
        Instruction::POP_R16 { r16 } => {
            let regs1 = spec_set_r8(c.registers, r16.spec_lower(), spec_read(m, sp));
            let regs2 = spec_set_r8(
                regs1,
                r16.spec_upper(),
                spec_read(m, u16_specs::wrapping_add(sp, 1)),
            );
            (
                Cpu {
                    registers: Registers {
                        sp: u16_specs::wrapping_add(u16_specs::wrapping_add(sp, 1), 1),
                        ..regs2
                    },
                    ..c
                },
                m,
                12,
            )
        },
        Instruction::PUSH_AF => {
            let sp1 = u16_specs::wrapping_sub(sp, 1);
            let m1 = spec_write(m, sp1, c.registers.a);
            let sp2 = u16_specs::wrapping_sub(sp1, 1);
            let m2 = spec_write(m1, sp2, spec_flags_to_u8(c.registers.f));
            (Cpu { registers: Registers { sp: sp2, ..c.registers }, ..c }, m2, 16)
        },
        Instruction::PUSH_R16 { r16 } => {
            let upper_val = spec_get_r8(c.registers, r16.spec_upper());
            let lower_val = spec_get_r8(c.registers, r16.spec_lower());
            let sp1 = u16_specs::wrapping_sub(sp, 1);
            let m1 = spec_write(m, sp1, upper_val);
            let sp2 = u16_specs::wrapping_sub(sp1, 1);
            let m2 = spec_write(m1, sp2, lower_val);
            (Cpu { registers: Registers { sp: sp2, ..c.registers }, ..c }, m2, 16)
        },
        Instruction::RES_U3_R8 { u3, r8 } => (spec_res_r8(c, u3.spec_get(), r8), m, 2),
        Instruction::RES_U3_HL_PNTR { u3 } => (
            spec_with_flags(c, spec_res_flags()),
            spec_write(m, hl, spec_res_val(spec_read(m, hl), u3.spec_get())),
            4,
        ),
        Instruction::RET => (spec_ret(c, m), m, 12),
        Instruction::RET_CC { condition } => {
            if spec_check_condition(c, condition) {
                (spec_ret(c, m), m, 20)
            } else {
                (c, m, 8)
            }
        },
        Instruction::RETI => (
            Cpu { ime_state: ImeState::PendingInstructionCompletion, ..spec_ret(c, m) },
            m,
            16,
        ),
        Instruction::RL_R8 { r8 } => {
            let v = spec_get_r8(c.registers, r8);
            (
                spec_rot_apply_r8(c, r8, spec_rl_val(v, c.registers.f.carry), v & 0x80 != 0),
                m,
                8,
            )
        },
        Instruction::RL_HL_PNTR => {
            let v = spec_read(m, hl);
            let (c1, m1) = spec_rot_apply_hl(c, m, spec_rl_val(v, c.registers.f.carry), v & 0x80
                != 0);
            (c1, m1, 16)
        },
        Instruction::RLA => {
            let v = c.registers.a;
            (spec_rot_apply_a(c, spec_rl_val(v, c.registers.f.carry), false, v & 0x80 != 0), m, 4)
        },
        Instruction::RLC_R8 { r8 } => {
            let v = spec_get_r8(c.registers, r8);
            (spec_rot_apply_r8(c, r8, spec_rlc_val(v), v & 0x80 != 0), m, 8)
        },
        Instruction::RLC_HL_PNTR => {
            let v = spec_read(m, hl);
            let (c1, m1) = spec_rot_apply_hl(c, m, spec_rlc_val(v), v & 0x80 != 0);
            (c1, m1, 16)
        },
        Instruction::RLCA => {
            let v = c.registers.a;
            (spec_rot_apply_a(c, spec_rlc_val(v), spec_rlc_val(v) == 0, v & 0x80 != 0), m, 4)
        },
        Instruction::RR_R8 { r8 } => {
            let v = spec_get_r8(c.registers, r8);
            (
                spec_rot_apply_r8(c, r8, spec_rr_val(v, c.registers.f.carry), v & 0x01 != 0),
                m,
                8,
            )
        },
        Instruction::RR_HL_PNTR => {
            let v = spec_read(m, hl);
            let (c1, m1) = spec_rot_apply_hl(c, m, spec_rr_val(v, c.registers.f.carry), v & 0x01
                != 0);
            (c1, m1, 16)
        },
        Instruction::RRA => {
            let v = c.registers.a;
            (spec_rot_apply_a(c, spec_rr_val(v, c.registers.f.carry), false, v & 0x01 != 0), m, 4)
        },
        Instruction::RRC_R8 { r8 } => {
            let v = spec_get_r8(c.registers, r8);
            (spec_rot_apply_r8(c, r8, spec_rrc_val(v), v & 0x01 != 0), m, 8)
        },
        Instruction::RRC_HL_PNTR => {
            let v = spec_read(m, hl);
            let (c1, m1) = spec_rot_apply_hl(c, m, spec_rrc_val(v), v & 0x01 != 0);
            (c1, m1, 16)
        },
        Instruction::RRCA => {
            let v = c.registers.a;
            (spec_rot_apply_a(c, spec_rrc_val(v), spec_rrc_val(v) == 0, v & 0x01 != 0), m, 4)
        },
        Instruction::RST { vec } => {
            let (c1, m1) = spec_call(c, m, vec.spec_get());
            (c1, m1, 16)
        },
        Instruction::SBC_A_R8 { r8 } => (spec_sbc_a(c, spec_get_r8(c.registers, r8)), m, 4),
        Instruction::SBC_A_HL_PNTR => (spec_sbc_a(c, spec_read(m, hl)), m, 8),
        Instruction::SBC_A_N8 { n8 } => (spec_sbc_a(c, n8), m, 8),
        Instruction::SCF => (
            spec_with_flags(
                c,
                Flags {
                    zero: c.registers.f.zero,
                    subtract: false,
                    half_carry: false,
                    carry: true,
                },
            ),
            m,
            4,
        ),
        Instruction::SET_U3_R8 { u3, r8 } => (
            Cpu {
                registers: spec_set_r8(
                    c.registers,
                    r8,
                    spec_get_r8(c.registers, r8) | spec_bit_mask(u3),
                ),
                ..c
            },
            m,
            8,
        ),
        Instruction::SET_U3_HL_PNTR { u3 } => (
            c,
            spec_write(m, hl, spec_read(m, hl) | spec_bit_mask(u3)),
            8,
        ),
        Instruction::SLA_R8 { r8 } => {
            let v = spec_get_r8(c.registers, r8);
            (spec_rot_apply_r8(c, r8, spec_sla_val(v), v & 0x80 != 0), m, 8)
        },
        Instruction::SLA_HL_PNTR => {
            let v = spec_read(m, hl);
            let (c1, m1) = spec_rot_apply_hl(c, m, spec_sla_val(v), v & 0x80 != 0);
            (c1, m1, 16)
        },
        Instruction::SRA_R8 { r8 } => {
            let v = spec_get_r8(c.registers, r8);
            (spec_rot_apply_r8(c, r8, spec_sra_val(v), v & 0x01 != 0), m, 8)
        },
        Instruction::SRA_HL_PNTR => {
            let v = spec_read(m, hl);
            let (c1, m1) = spec_rot_apply_hl(c, m, spec_sra_val(v), v & 0x01 != 0);
            (c1, m1, 16)
        },
        Instruction::SRL_R8 { r8 } => {
            let v = spec_get_r8(c.registers, r8);
            (spec_rot_apply_r8(c, r8, spec_srl_val(v), v & 0x01 != 0), m, 8)
        },
        Instruction::SRL_HL_PNTR => {
            let v = spec_read(m, hl);
            let (c1, m1) = spec_rot_apply_hl(c, m, spec_srl_val(v), v & 0x01 != 0);
            (c1, m1, 8)
        },
        Instruction::STOP => (Cpu { very_low_power_mode: true, ..c }, m, 4),
        Instruction::SUB_A_R8 { r8 } => (spec_sub_a(c, spec_get_r8(c.registers, r8)), m, 4),
        Instruction::SUB_A_HL_PNTR => (spec_sub_a(c, spec_read(m, hl)), m, 4),
        Instruction::SUB_A_N8 { n8 } => (spec_sub_a(c, n8), m, 4),
        Instruction::SWAP_R8 { r8 } => {
            let v = spec_get_r8(c.registers, r8);
            (spec_rot_apply_r8(c, r8, spec_swap_val(v), false), m, 8)
        },
        Instruction::SWAP_HL_PNTR => {
            let v = spec_read(m, hl);
            let (c1, m1) = spec_rot_apply_hl(c, m, spec_swap_val(v), false);
            (c1, m1, 16)
        },
        Instruction::XOR_A_R8 { r8 } => (spec_xor_a(c, spec_get_r8(c.registers, r8)), m, 4),
        Instruction::XOR_A_HL_PNTR => (spec_xor_a(c, spec_read(m, hl)), m, 8),
        Instruction::XOR_A_N8 { n8 } => (spec_xor_a(c, n8), m, 8),
    }
}

/// One instruction's full effect: its architectural effect, then the
/// end-of-instruction advance of the interrupt-enable state machine (which
/// runs for every instruction, the enabling one included).
pub open spec fn spec_step(c: Cpu, m: MemoryView, i: Instruction) -> (Cpu, MemoryView, u8) {
    let (c1, m1, t) = spec_step_pre(c, m, i);
    (Cpu { ime_state: spec_ime_epilogue(c1.ime_state), ..c1 }, m1, t)
}

impl Cpu {
    pub fn new() -> (r: Cpu)
        ensures
            r == spec_cpu_new(),
    {
        Cpu {
            registers: Registers::new(),
            ime_state: ImeState::Unset,
            low_power_mode: false,
            very_low_power_mode: false,
        }
    }

    /// Add `rhs` (plus the carry flag, for the carry variant) to A.
    pub fn add_a(&mut self, rhs: u8, with_carry: bool)
        ensures
            *final(self) == spec_add_a(*old(self), rhs, with_carry),
    {
        let a = self.registers.a;
        let extra: u8 = if with_carry && self.registers.f.carry {
            1
        } else {
            0
        };
        let total: u16 = a as u16 + rhs as u16 + extra as u16;
        let sum: u8 = (total % 0x100) as u8;
        self.registers.a = sum;
        self.registers.f = Flags {
            zero: sum == 0,
            subtract: false,
            half_carry: (a & 0xF) as u16 + (rhs & 0xF) as u16 > 0xF,
            carry: total > 0xFF,
        };
    }

    /// Add `rhs` to the HL pair.
    pub fn add_hl(&mut self, rhs: u16)
        ensures
            *final(self) == spec_add_hl(*old(self), rhs),
    {
        let hl = self.registers.get_hl();
        let total: u32 = hl as u32 + rhs as u32;
        let sum: u16 = (total % 0x10000) as u16;
        self.registers.set_hl(sum);
        self.registers.f = Flags {
            zero: sum == 0,
            subtract: false,
            half_carry: (hl & 0xFFF) as u32 + (rhs & 0xFFF) as u32 > 0xFFF,
            carry: total > 0xFFFF,
        };
    }

    /// Add the signed byte `rhs` to the stack pointer.
    pub fn add_sp(&mut self, rhs: i8)
        ensures
            *final(self) == spec_add_sp(*old(self), rhs),
    {
        let sp = self.registers.sp;
        let rhs: u16 = rhs as u16;
        let total: u32 = sp as u32 + rhs as u32;
        let sum: u16 = (total % 0x10000) as u16;
        self.registers.sp = sum;
        self.registers.f = Flags {
            zero: sum == 0,
            subtract: false,
            half_carry: (sp & 0xF) as u32 + (rhs & 0xF) as u32 > 0xF,
            carry: (sp & 0xFF) as u32 + (rhs & 0xFF) as u32 > 0xFF,
        };
    }

    /// Bitwise AND `rhs` into A.
    pub fn and(&mut self, rhs: u8)
        ensures
            *final(self) == spec_and_a(*old(self), rhs),
    {
        self.registers.a &= rhs;
        self.registers.f = Flags {
            zero: self.registers.a == 0,
            subtract: false,
            half_carry: true,
            carry: false,
        };
    }

    /// Bitwise OR `rhs` into A.
    pub fn or_a(&mut self, rhs: u8)
        ensures
            *final(self) == spec_or_a(*old(self), rhs),
    {
        self.registers.a |= rhs;
        self.registers.f = Flags {
            zero: self.registers.a == 0,
            subtract: false,
            half_carry: false,
            carry: false,
        };
    }

    /// Test bit `u3` of `byte`: the zero flag is set iff the bit is not set.
    pub fn bit(&mut self, u3: U3, byte: u8)
        ensures
            *final(self) == spec_bit_test(*old(self), u3, byte),
    {
        let bit = match u3 {
            U3::Zero => byte & 0x01,
            U3::One => byte & 0x02,
            U3::Two => byte & 0x04,
            U3::Three => byte & 0x08,
            U3::Four => byte & 0x10,
            U3::Five => byte & 0x20,
            U3::Six => byte & 0x40,
            U3::Seven => byte & 0x80,
        };
        self.registers.f = Flags {
            zero: bit == 0,
            subtract: false,
            half_carry: true,
            carry: self.registers.f.carry,
        };
    }

    /// Load the target address into the program counter.
    pub fn jump(&mut self, n16: u16)
        ensures
            *final(self) == (Cpu { registers: Registers { pc: n16, ..old(self).registers }, ..*old(
                self,
            ) }),
    {
        self.registers.pc = n16;
    }

    /// The program counter displaced by a signed offset, wrapping.
    pub fn position_from_offset(&mut self, offset: i8) -> (r: u16)
        ensures
            *final(self) == *old(self),
            r == spec_position_from_offset(*old(self), offset),
    {
        self.registers.pc.wrapping_add(offset as u16)
    }

    /// Whether a branch condition holds of the current flags.
    pub fn check_condition(&mut self, condition: Condition) -> (r: bool)
        ensures
            *final(self) == *old(self),
            r == spec_check_condition(*old(self), condition),
    {
        match condition {
            Condition::Z => self.registers.f.zero,
            Condition::NZ => !self.registers.f.zero,
            Condition::C => self.registers.f.carry,
            Condition::NC => !self.registers.f.carry,
        }
    }

    /// Compare `subtrahend` against A: subtraction flags, A untouched.
    pub fn cp(&mut self, subtrahend: u8)
        ensures
            *final(self) == spec_cp_a(*old(self), subtrahend),
    {
        let a = self.registers.a;
        self.registers.f = Flags {
            zero: a == subtrahend,
            subtract: true,
            half_carry: (a & 0xF) < (subtrahend & 0xF),
            carry: subtrahend > a,
        };
    }

    /// Decrement a register pair by one, wrapping; no flag effects.
    pub fn set_dec_r16(&mut self, r16: R16)
        ensures
            *final(self) == spec_dec_r16(*old(self), r16),
    {
        let value = self.registers.get_r16(&r16);
        self.registers.set_r16(&r16, value.wrapping_sub(1));
    }

    /// Store a byte into an 8-bit register.
    #[allow(non_snake_case)]
    pub fn load_u8_into_R8(&mut self, value: u8, register: R8)
        ensures
            *final(self) == (Cpu {
                registers: spec_set_r8(old(self).registers, register, value),
                ..*old(self)
            }),
    {
        self.registers.set_r8(&register, value);
    }

    /// Arm the interrupt-enable delay: from any non-pending state the
    /// machine moves to freshly-pending; a pending enable is left alone.
    pub fn set_ime(&mut self)
        ensures
            *final(self) == spec_set_ime(*old(self)),
    {
        if self.ime_state != ImeState::PendingNewInstruction && self.ime_state
            != ImeState::PendingInstructionCompletion {
            self.ime_state = ImeState::PendingNewInstruction;
        }
    }

    /// Shift left arithmetically; bit 7 leaves into the carry flag.
    pub fn rotate_arithmetic_left(&mut self, value: u8) -> (r: u8)
        ensures
            *final(self) == spec_with_carry(*old(self), value & 0x80 != 0),
            r == spec_sla_val(value),
    {
        self.registers.f.carry = value & 0x80 != 0;
        value << 1
    }

    /// Shift right arithmetically (bit 7 kept); bit 0 leaves into the carry
    /// flag.
    pub fn rotate_arithmetic_right(&mut self, value: u8) -> (r: u8)
        ensures
            *final(self) == spec_with_carry(*old(self), value & 0x01 != 0),
            r == spec_sra_val(value),
    {
        self.registers.f.carry = value & 0x01 != 0;
        (value >> 1) | (value & 0x80)
    }

    /// Shift right logically; bit 0 leaves into the carry flag.
    pub fn rotate_logical_right(&mut self, value: u8) -> (r: u8)
        ensures
            *final(self) == spec_with_carry(*old(self), value & 0x01 != 0),
            r == spec_srl_val(value),
    {
        self.registers.f.carry = value & 0x01 != 0;
        value >> 1
    }

    /// Rotate left through the carry flag: the old carry enters at bit 0,
    /// bit 7 leaves into the carry flag.
    pub fn rotate_left_through_carry(&mut self, value: u8) -> (r: u8)
        ensures
            *final(self) == spec_with_carry(*old(self), value & 0x80 != 0),
            r == spec_rl_val(value, old(self).registers.f.carry),
    {
        let carry_in = self.registers.f.carry;
        self.registers.f.carry = value & 0x80 != 0;
        (value << 1) | (if carry_in {
            1
        } else {
            0
        })
    }

    /// Plain rotate left: bit 7 moves into both the carry flag and bit 0.
    pub fn rotate_left(&mut self, value: u8) -> (r: u8)
        ensures
            *final(self) == spec_with_carry(*old(self), value & 0x80 != 0),
            r == spec_rlc_val(value),
    {
        self.registers.f.carry = value & 0x80 != 0;
        (value << 1) | (value >> 7)
    }

    /// Rotate right through the carry flag: the old carry enters at bit 7,
    /// bit 0 leaves into the carry flag.
    pub fn rotate_right_through_carry(&mut self, value: u8) -> (r: u8)
        ensures
            *final(self) == spec_with_carry(*old(self), value & 0x01 != 0),
            r == spec_rr_val(value, old(self).registers.f.carry),
    {
        let carry_in = self.registers.f.carry;
        self.registers.f.carry = value & 0x01 != 0;
        (value >> 1) | (if carry_in {
            0x80
        } else {
            0
        })
    }

    /// Plain rotate right: bit 0 moves into both the carry flag and bit 7.
    pub fn rotate_right(&mut self, value: u8) -> (r: u8)
        ensures
            *final(self) == spec_with_carry(*old(self), value & 0x01 != 0),
            r == spec_rrc_val(value),
    {
        self.registers.f.carry = value & 0x01 != 0;
        (value >> 1) | (value << 7)
    }

    /// Exchange the two nibbles of a byte; no flag effects here (the caller
    /// sets them from the result).
    pub fn swap(&mut self, value: u8) -> (r: u8)
        ensures
            *final(self) == *old(self),
            r == spec_swap_val(value),
    {
        let upper = value >> 4;
        let lower = value & 0xF;
        (lower << 4) | upper
    }

    /// Clear bit `bit` of a register; all four flags are cleared with it.
    pub fn res_r8(&mut self, bit: u8, r8: R8)
        requires
            bit < 8,
        ensures
            *final(self) == spec_res_r8(*old(self), bit, r8),
    {
        let mask = !(1u8 << bit);
        let value = self.registers.get_r8(&r8) & mask;
        self.registers.set_r8(&r8, value);
        self.registers.f = Flags { zero: false, subtract: false, half_carry: false, carry: false };
    }

    /// Store a byte at the address the stack pointer holds.
    pub fn load_u8_into_stack(&mut self, memory: &mut Memory, value: u8)
        requires
            spec_mem_wf(old(memory)@),
        ensures
            spec_mem_wf(final(memory)@),
            *final(self) == *old(self),
            final(memory)@ == spec_write(old(memory)@, old(self).registers.sp, value),
    {
        let address = self.registers.sp;
        memory.write(address, value);
    }

    /// Load the byte at an address into an 8-bit register.
    pub fn load_address_into_reg(&mut self, memory: &mut Memory, address: u16, register: R8)
        requires
            spec_mem_wf(old(memory)@),
        ensures
            final(memory)@ == old(memory)@,
            *final(self) == (Cpu {
                registers: spec_set_r8(
                    old(self).registers,
                    register,
                    spec_read(old(memory)@, address),
                ),
                ..*old(self)
            }),
    {
        let value = memory.read(address);
        self.registers.set_r8(&register, value);
    }

    /// Push the program counter onto the stack (high byte then low byte,
    /// pre-decrementing the stack pointer each push), then jump to the
    /// target.
    pub fn call(&mut self, memory: &mut Memory, n16: u16)
        requires
            spec_mem_wf(old(memory)@),
        ensures
            spec_mem_wf(final(memory)@),
            (*final(self), final(memory)@) == spec_call(*old(self), old(memory)@, n16),
    {
        let upper: u8 = (self.registers.pc >> 8) as u8;
        let lower: u8 = (self.registers.pc & 0xFF) as u8;
        self.registers.sp = self.registers.sp.wrapping_sub(1);
        self.load_u8_into_stack(memory, upper);
        self.registers.sp = self.registers.sp.wrapping_sub(1);
        self.load_u8_into_stack(memory, lower);
        self.registers.pc = n16;
    }

    /// Pop the program counter from the stack, in the mirror order of a
    /// call: low byte first, post-incrementing the stack pointer each pop.
    pub fn ret(&mut self, memory: &mut Memory)
        requires
            spec_mem_wf(old(memory)@),
        ensures
            final(memory)@ == old(memory)@,
            *final(self) == spec_ret(*old(self), old(memory)@),
    {
        let lower: u8 = memory.read(self.registers.sp);
        self.registers.sp = self.registers.sp.wrapping_add(1);
        let upper: u8 = memory.read(self.registers.sp);
        self.registers.sp = self.registers.sp.wrapping_add(1);
        self.registers.set_pc(lower, upper);
    }

    /// Clear bit `bit` of the byte at `hl_ref`; all four flags are cleared
    /// with it.
    pub fn res_hl(&mut self, memory: &mut Memory, bit: u8, hl_ref: u16)
        requires
            bit < 8,
            spec_mem_wf(old(memory)@),
        ensures
            spec_mem_wf(final(memory)@),
            *final(self) == spec_with_flags(*old(self), spec_res_flags()),
            final(memory)@ == spec_write(
                old(memory)@,
                hl_ref,
                spec_res_val(spec_read(old(memory)@, hl_ref), bit),
            ),
    {
        let mask = !(1u8 << bit);
        let hl = memory.read(hl_ref);
        memory.write(hl_ref, hl & mask);
        self.registers.f = Flags { zero: false, subtract: false, half_carry: false, carry: false };
    }

    /// Subtract `value` from A.
    fn sub_a(&mut self, value: u8)
        ensures
            *final(self) == spec_sub_a(*old(self), value),
    {
        let a = self.registers.a;
        let diff = a.wrapping_sub(value);
        self.registers.a = diff;
        self.registers.f = Flags {
            zero: diff == 0,
            subtract: true,
            half_carry: (a & 0xF) < (value & 0xF),
            carry: value > a,
        };
    }

    /// Subtract `value` and the carry flag from A.
    fn sbc_a(&mut self, value: u8)
        ensures
            *final(self) == spec_sbc_a(*old(self), value),
    {
        let a = self.registers.a;
        let extra: u8 = if self.registers.f.carry {
            1
        } else {
            0
        };
        let diff = a.wrapping_sub(value).wrapping_sub(extra);
        self.registers.a = diff;
        self.registers.f = Flags {
            zero: diff == 0,
            subtract: true,
            half_carry: ((a & 0xF) as u16) < (value & 0xF) as u16 + extra as u16,
            carry: (a as u16) < value as u16 + extra as u16,
        };
    }

    /// Bitwise XOR `rhs` into A.
    fn xor_a(&mut self, rhs: u8)
        ensures
            *final(self) == spec_xor_a(*old(self), rhs),
    {
        self.registers.a ^= rhs;
        self.registers.f = Flags {
            zero: self.registers.a == 0,
            subtract: false,
            half_carry: false,
            carry: false,
        };
    }

    /// Whether the instruction is arithmetic or logic on the accumulator.
    spec fn is_acc_alu_op(i: Instruction) -> bool {
        match i {
            Instruction::ADC_A_R8 { .. }
            | Instruction::ADC_A_HL_PNTR
            | Instruction::ADC_A_N8 { .. }
            | Instruction::ADD_A_R8 { .. }
            | Instruction::ADD_A_HL_PNTR
            | Instruction::ADD_A_N8 { .. }
            | Instruction::AND_A_R8 { .. }
            | Instruction::AND_A_HL_PNTR
            | Instruction::AND_A_N8 { .. }
            | Instruction::CP_A_R8 { .. }
            | Instruction::CP_A_HL_PNTR
            | Instruction::CP_A_N8 { .. }
            | Instruction::OR_A_R8 { .. }
            | Instruction::OR_A_HL_PNTR
            | Instruction::OR_A_N8 { .. }
            | Instruction::SBC_A_R8 { .. }
            | Instruction::SBC_A_HL_PNTR
            | Instruction::SBC_A_N8 { .. }
            | Instruction::SUB_A_R8 { .. }
            | Instruction::SUB_A_HL_PNTR
            | Instruction::SUB_A_N8 { .. }
            | Instruction::XOR_A_R8 { .. }
            | Instruction::XOR_A_HL_PNTR
            | Instruction::XOR_A_N8 { .. } => true,
            _ => false,
        }
    }

    /// The architectural effect and cycle cost of an accumulator arithmetic or logic instruction.
    #[verifier::rlimit(60)]
    fn execute_acc_alu(&mut self, i: Instruction, memory: &mut Memory) -> (t_cycle: u8)
        requires
            Self::is_acc_alu_op(i),
            spec_mem_wf(old(memory)@),
        ensures
            spec_mem_wf(final(memory)@),
            (*final(self), final(memory)@, t_cycle) == spec_step_pre(
                *old(self),
                old(memory)@,
                i,
            ),
    {
        let t_cycle: u8 = match i {
            // Add the value in r8 plus the carry flag to A.
            Instruction::ADC_A_R8 { r8 } => {
                let rhs = self.registers.get_r8(&r8);
                self.add_a(rhs, true);
                4
            },
            // Add the byte pointed to by HL plus the carry flag to A.
            Instruction::ADC_A_HL_PNTR => {
                let rhs = memory.read(self.registers.get_hl());
                self.add_a(rhs, true);
                8
            },
            // Add the value n8 plus the carry flag to A.
            Instruction::ADC_A_N8 { n8 } => {
                self.add_a(n8, true);
                8
            },
            // Add the value in r8 to A.
            Instruction::ADD_A_R8 { r8 } => {
                let rhs = self.registers.get_r8(&r8);
                self.add_a(rhs, false);
                4
            },
            // Add the byte pointed to by HL to A.
            Instruction::ADD_A_HL_PNTR => {
                let rhs = memory.read(self.registers.get_hl());
                self.add_a(rhs, false);
                8
            },
            // Add the value n8 to A.
            Instruction::ADD_A_N8 { n8 } => {
                self.add_a(n8, false);
                8
            },
            // Bitwise AND between the value in r8 and A.
            Instruction::AND_A_R8 { r8 } => {
                let rhs = self.registers.get_r8(&r8);
                self.and(rhs);
                4
            },
            // Bitwise AND between the byte pointed to by HL and A.
            Instruction::AND_A_HL_PNTR => {
                let rhs = memory.read(self.registers.get_hl());
                self.and(rhs);
                8
            },
            // Bitwise AND between the value n8 and A.
            Instruction::AND_A_N8 { n8 } => {
                self.and(n8);
                8
            },
            // Subtract the value in r8 from A, setting flags only.
            Instruction::CP_A_R8 { r8 } => {
                let rhs = self.registers.get_r8(&r8);
                self.cp(rhs);
                4
            },
            // Subtract the byte pointed to by HL from A, setting flags only.
            Instruction::CP_A_HL_PNTR => {
                let rhs = memory.read(self.registers.get_hl());
                self.cp(rhs);
                8
            },
            // Subtract the value n8 from A, setting flags only.
            Instruction::CP_A_N8 { n8 } => {
                self.cp(n8);
                8
            },
            // Store into A the bitwise OR of the value in r8 and A.
            Instruction::OR_A_R8 { r8 } => {
                let rhs = self.registers.get_r8(&r8);
                self.or_a(rhs);
                4
            },
            // Store into A the bitwise OR of the byte pointed to by HL and A.
            Instruction::OR_A_HL_PNTR => {
                let rhs = memory.read(self.registers.get_hl());
                self.or_a(rhs);
                8
            },
            // Store into A the bitwise OR of n8 and A.
            Instruction::OR_A_N8 { n8 } => {
                self.or_a(n8);
                8
            },
            // Subtract the value in r8 and the carry flag from A.
            Instruction::SBC_A_R8 { r8 } => {
                let value = self.registers.get_r8(&r8);
                self.sbc_a(value);
                4
            },
            // Subtract the byte pointed to by HL and the carry flag from A.
            Instruction::SBC_A_HL_PNTR => {
                let value = memory.read(self.registers.get_hl());
                self.sbc_a(value);
                8
            },
            // Subtract the value n8 and the carry flag from A.
            Instruction::SBC_A_N8 { n8 } => {
                self.sbc_a(n8);
                8
            },
            // Subtract the value in r8 from A.
            Instruction::SUB_A_R8 { r8 } => {
                let value = self.registers.get_r8(&r8);
                self.sub_a(value);
                4
            },
            // Subtract the byte pointed to by HL from A.
            Instruction::SUB_A_HL_PNTR => {
                let value = memory.read(self.registers.get_hl());
                self.sub_a(value);
                4
            },
            // Subtract the value n8 from A.
            Instruction::SUB_A_N8 { n8 } => {
                self.sub_a(n8);
                4
            },
            // Bitwise XOR between the value in r8 and A.
            Instruction::XOR_A_R8 { r8 } => {
                let rhs = self.registers.get_r8(&r8);
                self.xor_a(rhs);
                4
            },
            // Bitwise XOR between the byte pointed to by HL and A.
            Instruction::XOR_A_HL_PNTR => {
                let rhs = memory.read(self.registers.get_hl());
                self.xor_a(rhs);
                8
            },
            // Bitwise XOR between the value n8 and A.
            Instruction::XOR_A_N8 { n8 } => {
                self.xor_a(n8);
                8
            },
            // every other variant is excluded by this function's precondition
            _ => 0,
        };
        proof {
            assert((*self, memory@, t_cycle) == spec_step_pre(*old(self), old(memory)@, i)) by {
                reveal(spec_step_pre);
            };
        }
        t_cycle
    }

    /// Whether the instruction is a 16-bit addition, an increment or decrement, or a flag/accumulator adjustment.
    spec fn is_inc_dec_adjust_op(i: Instruction) -> bool {
        match i {
            Instruction::ADD_HL_R16 { .. }
            | Instruction::ADD_HL_SP
            | Instruction::ADD_SP_E8 { .. }
            | Instruction::CCF
            | Instruction::CPL
            | Instruction::DAA
            | Instruction::SCF
            | Instruction::INC_R8 { .. }
            | Instruction::INC_HL_PNTR
            | Instruction::INC_R16 { .. }
            | Instruction::INC_SP
            | Instruction::DEC_R8 { .. }
            | Instruction::DEC_HL_PNTR
            | Instruction::DEC_R16 { .. }
            | Instruction::DEC_SP => true,
            _ => false,
        }
    }

    /// The architectural effect and cycle cost of a 16-bit addition, increment/decrement or adjustment instruction.
    #[verifier::rlimit(60)]
    fn execute_inc_dec_adjust(&mut self, i: Instruction, memory: &mut Memory) -> (t_cycle: u8)
        requires
            Self::is_inc_dec_adjust_op(i),
            spec_mem_wf(old(memory)@),
        ensures
            spec_mem_wf(final(memory)@),
            (*final(self), final(memory)@, t_cycle) == spec_step_pre(
                *old(self),
                old(memory)@,
                i,
            ),
    {
        let t_cycle: u8 = match i {
            // Add the value in r16 to HL.
            Instruction::ADD_HL_R16 { r16 } => {
                let rhs = self.registers.get_r16(&r16);
                self.add_hl(rhs);
                8
            },
            // Add the value in SP to HL.
            Instruction::ADD_HL_SP => {
                let rhs = self.registers.sp;
                self.add_hl(rhs);
                8
            },
            // Add the signed value e8 to SP.
            Instruction::ADD_SP_E8 { e8 } => {
                self.add_sp(e8);
                16
            },
            // Complement the carry flag.
            Instruction::CCF => {
                self.registers.f.carry = !self.registers.f.carry;
                4
            },
            // Complement the accumulator.
            Instruction::CPL => {
                self.registers.a = !self.registers.a;
                self.registers.f.subtract = true;
                self.registers.f.half_carry = true;
                4
            },
            // Adjust the accumulator to valid packed binary-coded decimal
            // after an arithmetic instruction.
            Instruction::DAA => {
                let a = self.registers.a;
                let mut adjusted = a;
                let mut carry = self.registers.f.carry;
                if (a & 0x0F) > 9 || self.registers.f.half_carry {
                    adjusted = adjusted.wrapping_add(0x06);
                    carry = false;
                }
                if (a & 0xF0) > 0x90 || carry {
                    adjusted = adjusted.wrapping_add(0x60);
                    carry = true;
                }
                self.registers.a = adjusted;
                self.registers.f.zero = adjusted == 0;
                self.registers.f.carry = carry;
                4
            },
            // Set the carry flag.
            Instruction::SCF => {
                self.registers.f.carry = true;
                self.registers.f.subtract = false;
                self.registers.f.half_carry = false;
                4
            },
            // Increment the value in register r8 by 1.
            Instruction::INC_R8 { r8 } => {
                let val = self.registers.get_r8(&r8);
                let inc = val.wrapping_add(1);
                self.registers.set_r8(&r8, inc);
                self.registers.f = Flags {
                    zero: inc == 0,
                    subtract: false,
                    half_carry: val & 0xF == 0xF,
                    carry: self.registers.f.carry,
                };
                4
            },
            // Increment the byte pointed to by HL by 1.
            Instruction::INC_HL_PNTR => {
                let hl = self.registers.get_hl();
                let val = memory.read(hl);
                let inc = val.wrapping_add(1);
                memory.write(hl, inc);
                self.registers.f = Flags {
                    zero: inc == 0,
                    subtract: false,
                    half_carry: val & 0xF == 0xF,
                    carry: self.registers.f.carry,
                };
                12
            },
            // Increment the value in register r16 by 1; no flag effects.
            Instruction::INC_R16 { r16 } => {
                let val = self.registers.get_r16(&r16);
                self.registers.set_r16(&r16, val.wrapping_add(1));
                8
            },
            // Increment the stack pointer by 1; no flag effects.
            Instruction::INC_SP => {
                self.registers.sp = self.registers.sp.wrapping_add(1);
                8
            },
            // Decrement the value in register r8 by 1.
            Instruction::DEC_R8 { r8 } => {
                let val = self.registers.get_r8(&r8);
                let dec = val.wrapping_sub(1);
                self.registers.set_r8(&r8, dec);
                self.registers.f = Flags {
                    zero: dec == 0,
                    subtract: true,
                    half_carry: val & 0xF == 0,
                    carry: self.registers.f.carry,
                };
                4
            },
            // Decrement the byte pointed to by HL by 1.
            Instruction::DEC_HL_PNTR => {
                let hl = self.registers.get_hl();
                let val = memory.read(hl);
                let dec = val.wrapping_sub(1);
                memory.write(hl, dec);
                self.registers.f = Flags {
                    zero: dec == 0,
                    subtract: true,
                    half_carry: val & 0xF == 0,
                    carry: self.registers.f.carry,
                };
                12
            },
            // Decrement the value in register r16 by 1; no flag effects.
            Instruction::DEC_R16 { r16 } => {
                self.set_dec_r16(r16);
                8
            },
            // Decrement the stack pointer by 1; no flag effects.
            Instruction::DEC_SP => {
                self.registers.sp = self.registers.sp.wrapping_sub(1);
                8
            },
            // every other variant is excluded by this function's precondition
            _ => 0,
        };
        proof {
            assert((*self, memory@, t_cycle) == spec_step_pre(*old(self), old(memory)@, i)) by {
                reveal(spec_step_pre);
            };
        }
        t_cycle
    }

    /// Whether the instruction is a plain load among the registers or between a register and memory.
    spec fn is_load_a_op(i: Instruction) -> bool {
        match i {
            Instruction::LD_R8_R8 { .. }
            | Instruction::LD_R8_N8 { .. }
            | Instruction::LD_R16_R16 { .. }
            | Instruction::LD_HL_PNTR_R8 { .. }
            | Instruction::LD_HL_PNTR_N8 { .. }
            | Instruction::LD_R8_HL_PNTR { .. }
            | Instruction::LD_R16_PNTR_A { .. }
            | Instruction::LD_N16_PNTR_A { .. }
            | Instruction::LDH_N16_PNTR_A { .. }
            | Instruction::LDH_C_PNTR_A
            | Instruction::LD_A_R16_PNTR { .. } => true,
            _ => false,
        }
    }

    /// The architectural effect and cycle cost of a load instruction.
    #[verifier::rlimit(60)]
    fn execute_load_a(&mut self, i: Instruction, memory: &mut Memory) -> (t_cycle: u8)
        requires
            Self::is_load_a_op(i),
            spec_mem_wf(old(memory)@),
        ensures
            spec_mem_wf(final(memory)@),
            (*final(self), final(memory)@, t_cycle) == spec_step_pre(
                *old(self),
                old(memory)@,
                i,
            ),
    {
        let t_cycle: u8 = match i {
            // Copy the value in register src to register dest.
            Instruction::LD_R8_R8 { dest, src } => {
                let value = self.registers.get_r8(&src);
                self.registers.set_r8(&dest, value);
                4
            },
            // Load value n8 into an 8-bit register.
            Instruction::LD_R8_N8 { dest, n8 } => {
                self.registers.set_r8(&dest, n8);
                8
            },
            // Copy the value of one register pair into another.
            Instruction::LD_R16_R16 { dest, src } => {
                let value = self.registers.get_r16(&src);
                self.registers.set_r16(&dest, value);
                12
            },
            // Store the value in register r8 into the byte pointed to by HL.
            Instruction::LD_HL_PNTR_R8 { r8 } => {
                let value = self.registers.get_r8(&r8);
                let hl = self.registers.get_hl();
                memory.write(hl, value);
                8
            },
            // Store value n8 into the byte pointed to by HL.
            Instruction::LD_HL_PNTR_N8 { n8 } => {
                let hl = self.registers.get_hl();
                memory.write(hl, n8);
                12
            },
            // Load the byte pointed to by HL into register r8.
            Instruction::LD_R8_HL_PNTR { r8 } => {
                let hl = self.registers.get_hl();
                self.load_address_into_reg(memory, hl, r8);
                8
            },
            // Store the value in register A into the byte pointed to by r16.
            Instruction::LD_R16_PNTR_A { r16 } => {
                let value = self.registers.a;
                let dest = self.registers.get_r16(&r16);
                memory.write(dest, value);
                8
            },
            // Store the value in register A into the byte at address n16.
            Instruction::LD_N16_PNTR_A { n16 } => {
                let value = self.registers.a;
                memory.write(n16, value);
                16
            },
            // Store the value in register A into the byte at address n16,
            // provided n16 lies in the high window.
            Instruction::LDH_N16_PNTR_A { n16 } => {
                if n16 >= 0xFF00 && n16 < 0xFFFF {
                    let value = self.registers.a;
                    memory.write(n16, value);
                }
                12
            },
            // Store the value in register A into the byte at 0xFF00 + C.
            Instruction::LDH_C_PNTR_A => {
                let address = 0xFF00 + self.registers.c as u16;
                let value = self.registers.a;
                memory.write(address, value);
                8
            },
            // Load the byte pointed to by r16 into register A.
            Instruction::LD_A_R16_PNTR { r16 } => {
                let address = self.registers.get_r16(&r16);
                self.load_address_into_reg(memory, address, R8::A);
                8
            },
            // every other variant is excluded by this function's precondition
            _ => 0,
        };
        proof {
            assert((*self, memory@, t_cycle) == spec_step_pre(*old(self), old(memory)@, i)) by {
                reveal(spec_step_pre);
            };
        }
        t_cycle
    }

    /// Whether the instruction is a load through the high window, a pointer-stepping load or a stack-pointer load.
    spec fn is_load_b_op(i: Instruction) -> bool {
        match i {
            Instruction::LD_A_N16_PNTR { .. }
            | Instruction::LDH_A_N16_PNTR { .. }
            | Instruction::LDH_A_C_PNTR
            | Instruction::LD_HLI_PNTR_A
            | Instruction::LD_HLD_PNTR_A
            | Instruction::LD_A_HLI_PNTR
            | Instruction::LD_A_HLD_PNTR
            | Instruction::LD_SP_N16 { .. }
            | Instruction::LD_N16_PNTR_SP { .. }
            | Instruction::LD_HL_SPE8 { .. }
            | Instruction::LD_SP_HL => true,
            _ => false,
        }
    }

    /// The architectural effect and cycle cost of a high-window, pointer-stepping or stack-pointer load instruction.
    #[verifier::rlimit(60)]
    fn execute_load_b(&mut self, i: Instruction, memory: &mut Memory) -> (t_cycle: u8)
        requires
            Self::is_load_b_op(i),
            spec_mem_wf(old(memory)@),
        ensures
            spec_mem_wf(final(memory)@),
            (*final(self), final(memory)@, t_cycle) == spec_step_pre(
                *old(self),
                old(memory)@,
                i,
            ),
    {
        let t_cycle: u8 = match i {
            // Load the byte at address n16 into register A.
            Instruction::LD_A_N16_PNTR { n16 } => {
                self.load_address_into_reg(memory, n16, R8::A);
                16
            },
            // Load the byte at address n16 into register A, provided n16
            // lies in the high window.
            Instruction::LDH_A_N16_PNTR { n16 } => {
                if n16 >= 0xFF00 && n16 < 0xFFFF {
                    self.load_address_into_reg(memory, n16, R8::A);
                }
                12
            },
            // Load the byte at 0xFF00 + C into register A.
            Instruction::LDH_A_C_PNTR => {
                let address = 0xFF00 + self.registers.c as u16;
                self.load_address_into_reg(memory, address, R8::A);
                8
            },
            // Store A into the byte pointed to by HL, then increment HL.
            Instruction::LD_HLI_PNTR_A => {
                let value = self.registers.a;
                let hl = self.registers.get_hl();
                memory.write(hl, value);
                self.registers.set_hl(hl.wrapping_add(1));
                8
            },
            // Store A into the byte pointed to by HL, then decrement HL.
            Instruction::LD_HLD_PNTR_A => {
                let value = self.registers.a;
                let hl = self.registers.get_hl();
                memory.write(hl, value);
                self.registers.set_hl(hl.wrapping_sub(1));
                8
            },
            // Load the byte pointed to by HL into A, then increment HL.
            Instruction::LD_A_HLI_PNTR => {
                let hl = self.registers.get_hl();
                self.load_address_into_reg(memory, hl, R8::A);
                self.registers.set_hl(hl.wrapping_add(1));
                8
            },
            // Load the byte pointed to by HL into A, then decrement HL.
            Instruction::LD_A_HLD_PNTR => {
                let hl = self.registers.get_hl();
                self.load_address_into_reg(memory, hl, R8::A);
                self.registers.set_hl(hl.wrapping_sub(1));
                8
            },
            // Load value n16 into the stack pointer.
            Instruction::LD_SP_N16 { n16 } => {
                self.registers.sp = n16;
                12
            },
            // Store the stack pointer's low byte at n16 and its high byte
            // at n16 + 1.
            Instruction::LD_N16_PNTR_SP { n16 } => {
                let lower = (self.registers.sp & 0xFF) as u8;
                let upper = (self.registers.sp >> 8) as u8;
                memory.write(n16, lower);
                memory.write(n16.wrapping_add(1), upper);
                20
            },
            // Add the signed value e8 to SP and store the result in HL.
            Instruction::LD_HL_SPE8 { e8 } => {
                let sp = self.registers.sp;
                let rhs: u16 = e8 as u16;
                let sum = sp.wrapping_add(rhs);
                self.registers.set_hl(sum);
                self.registers.f = Flags {
                    zero: false,
                    subtract: false,
                    half_carry: (sp & 0xF) as u32 + (rhs & 0xF) as u32 > 0xF,
                    carry: (sp & 0xFF) as u32 + (rhs & 0xFF) as u32 > 0xFF,
                };
                12
            },
            // Load register HL into the stack pointer.
            Instruction::LD_SP_HL => {
                self.registers.sp = self.registers.get_hl();
                8
            },
            // every other variant is excluded by this function's precondition
            _ => 0,
        };
        proof {
            assert((*self, memory@, t_cycle) == spec_step_pre(*old(self), old(memory)@, i)) by {
                reveal(spec_step_pre);
            };
        }
        t_cycle
    }

    /// Whether the instruction is a stack push or pop.
    spec fn is_stack_op(i: Instruction) -> bool {
        match i {
            Instruction::POP_AF
            | Instruction::POP_R16 { .. }
            | Instruction::PUSH_AF
            | Instruction::PUSH_R16 { .. } => true,
            _ => false,
        }
    }

    /// The architectural effect and cycle cost of a stack push or pop instruction.
    #[verifier::rlimit(60)]
    fn execute_stack(&mut self, i: Instruction, memory: &mut Memory) -> (t_cycle: u8)
        requires
            Self::is_stack_op(i),
            spec_mem_wf(old(memory)@),
        ensures
            spec_mem_wf(final(memory)@),
            (*final(self), final(memory)@, t_cycle) == spec_step_pre(
                *old(self),
                old(memory)@,
                i,
            ),
    {
        let t_cycle: u8 = match i {
            // Pop register AF from the stack: flags first, accumulator
            // second, post-incrementing the stack pointer each pop.
            Instruction::POP_AF => {
                let f_byte = memory.read(self.registers.sp);
                self.registers.f = flags_from_u8(f_byte);
                self.registers.sp = self.registers.sp.wrapping_add(1);
                let a = memory.read(self.registers.sp);
                self.registers.a = a;
                self.registers.sp = self.registers.sp.wrapping_add(1);
                12
            },
            // Pop a register pair from the stack: low byte first, high byte
            // second, post-incrementing the stack pointer each pop.
            Instruction::POP_R16 { r16 } => {
                let lower = r16.get_lower();
                let upper = r16.get_upper();
                let low_val = memory.read(self.registers.sp);
                self.registers.set_r8(&lower, low_val);
                self.registers.sp = self.registers.sp.wrapping_add(1);
                let high_val = memory.read(self.registers.sp);
                self.registers.set_r8(&upper, high_val);
                self.registers.sp = self.registers.sp.wrapping_add(1);
                12
            },
            // Push register AF onto the stack: accumulator first, flags
            // second, pre-decrementing the stack pointer each push.
            Instruction::PUSH_AF => {
                self.registers.sp = self.registers.sp.wrapping_sub(1);
                let value = self.registers.a;
                self.load_u8_into_stack(memory, value);
                self.registers.sp = self.registers.sp.wrapping_sub(1);
                let packed = flags_to_u8(&self.registers.f);
                self.load_u8_into_stack(memory, packed);
                16
            },
            // Push a register pair onto the stack: high byte first, low
            // byte second, pre-decrementing the stack pointer each push.
            Instruction::PUSH_R16 { r16 } => {
                let lower = self.registers.get_r8(&r16.get_lower());
                let upper = self.registers.get_r8(&r16.get_upper());
                self.registers.sp = self.registers.sp.wrapping_sub(1);
                self.load_u8_into_stack(memory, upper);
                self.registers.sp = self.registers.sp.wrapping_sub(1);
                self.load_u8_into_stack(memory, lower);
                16
            },
            // every other variant is excluded by this function's precondition
            _ => 0,
        };
        proof {
            assert((*self, memory@, t_cycle) == spec_step_pre(*old(self), old(memory)@, i)) by {
                reveal(spec_step_pre);
            };
        }
        t_cycle
    }

    /// Whether the instruction is a control transfer, interrupt-enable control or a power-mode change.
    spec fn is_control_op(i: Instruction) -> bool {
        match i {
            Instruction::CALL_N16 { .. }
            | Instruction::CALL_CC_N16 { .. }
            | Instruction::DI
            | Instruction::EI
            | Instruction::HALT
            | Instruction::JP_N16 { .. }
            | Instruction::JP_CC_N16 { .. }
            | Instruction::JP_HL
            | Instruction::JR_N16 { .. }
            | Instruction::JR_CC_N16 { .. }
            | Instruction::NOP
            | Instruction::RET
            | Instruction::RET_CC { .. }
            | Instruction::RETI
            | Instruction::RST { .. }
            | Instruction::STOP => true,
            _ => false,
        }
    }

    /// The architectural effect and cycle cost of a control-transfer, interrupt or power-mode instruction.
    #[verifier::rlimit(60)]
    fn execute_control(&mut self, i: Instruction, memory: &mut Memory) -> (t_cycle: u8)
        requires
            Self::is_control_op(i),
            spec_mem_wf(old(memory)@),
        ensures
            spec_mem_wf(final(memory)@),
            (*final(self), final(memory)@, t_cycle) == spec_step_pre(
                *old(self),
                old(memory)@,
                i,
            ),
    {
        let t_cycle: u8 = match i {
            // Push the return address, then jump to n16.
            Instruction::CALL_N16 { n16 } => {
                self.call(memory, n16);
                24
            },
            // If the condition is met, execute a CALL; a taken call costs
            // more than one that falls through.
            Instruction::CALL_CC_N16 { condition, n16 } => {
                let proceed = self.check_condition(condition);
                if proceed {
                    self.call(memory, n16);
                    24
                } else {
                    12
                }
            },
            // Disable interrupts immediately.
            Instruction::DI => {
                self.ime_state = ImeState::Unset;
                4
            },
            // Enable interrupts, delayed by one full instruction.
            Instruction::EI => {
                self.set_ime();
                4
            },
            // Enter low-power mode. With interrupts disabled the halt still
            // resolves by pending-interrupt state: if an interrupt is
            // already both enabled and requested, the halt falls through
            // (the real hardware's duplicate-fetch quirk belongs to the
            // out-of-scope fetch stage).
            Instruction::HALT => {
                if self.ime_state == ImeState::Enabled {
                    self.low_power_mode = true;
                } else {
                    let enabled = memory.read(0xFFFF);
                    let requested = memory.read(0xFF0F);
                    if enabled & requested & 0x1F == 0 {
                        self.low_power_mode = true;
                    }
                }
                4
            },
            // Jump to address n16.
            Instruction::JP_N16 { n16 } => {
                self.jump(n16);
                16
            },
            // If the condition is met, jump to address n16.
            Instruction::JP_CC_N16 { condition, n16 } => {
                let proceed = self.check_condition(condition);
                if proceed {
                    self.jump(n16);
                    16
                } else {
                    12
                }
            },
            // Jump to the address within HL.
            Instruction::JP_HL => {
                let hl = self.registers.get_hl();
                self.jump(hl);
                4
            },
            // Relative jump by a signed offset.
            Instruction::JR_N16 { offset } => {
                let position = self.position_from_offset(offset);
                self.jump(position);
                12
            },
            // Relative jump if the condition is met.
            Instruction::JR_CC_N16 { condition, offset } => {
                let proceed = self.check_condition(condition);
                if proceed {
                    let position = self.position_from_offset(offset);
                    self.jump(position);
                    12
                } else {
                    8
                }
            },
            // No operation.
            Instruction::NOP => 1,
            // Return from subroutine.
            Instruction::RET => {
                self.ret(memory);
                12
            },
            // Return from subroutine if the condition is met.
            Instruction::RET_CC { condition } => {
                let proceed = self.check_condition(condition);
                if proceed {
                    self.ret(memory);
                    20
                } else {
                    8
                }
            },
            // Return and enable interrupts: the enable is armed to take
            // effect immediately rather than after a one-instruction delay.
            Instruction::RETI => {
                self.ime_state = ImeState::PendingInstructionCompletion;
                self.ret(memory);
                16
            },
            // Call one of the eight fixed restart vectors.
            Instruction::RST { vec } => {
                let target = vec.get();
                self.call(memory, target);
                16
            },
            // Enter the deeper low-power mode, resumed only by an external
            // event outside the core's scope.
            Instruction::STOP => {
                self.very_low_power_mode = true;
                4
            },
            // every other variant is excluded by this function's precondition
            _ => 0,
        };
        proof {
            assert((*self, memory@, t_cycle) == spec_step_pre(*old(self), old(memory)@, i)) by {
                reveal(spec_step_pre);
            };
        }
        t_cycle
    }

    /// Whether the instruction is a single-bit test, clear or set.
    spec fn is_single_bit_op(i: Instruction) -> bool {
        match i {
            Instruction::BIT_U3_R8 { .. }
            | Instruction::BIT_U3_HL_PNTR { .. }
            | Instruction::RES_U3_R8 { .. }
            | Instruction::RES_U3_HL_PNTR { .. }
            | Instruction::SET_U3_R8 { .. }
            | Instruction::SET_U3_HL_PNTR { .. } => true,
            _ => false,
        }
    }

    /// The architectural effect and cycle cost of a bit test, clear or set instruction.
    #[verifier::rlimit(60)]
    fn execute_single_bit(&mut self, i: Instruction, memory: &mut Memory) -> (t_cycle: u8)
        requires
            Self::is_single_bit_op(i),
            spec_mem_wf(old(memory)@),
        ensures
            spec_mem_wf(final(memory)@),
            (*final(self), final(memory)@, t_cycle) == spec_step_pre(
                *old(self),
                old(memory)@,
                i,
            ),
    {
        let t_cycle: u8 = match i {
            // Test bit u3 in register r8; the zero flag is set iff the bit
            // is not set.
            Instruction::BIT_U3_R8 { u3, r8 } => {
                let byte = self.registers.get_r8(&r8);
                self.bit(u3, byte);
                8
            },
            // Test bit u3 in the byte pointed to by HL.
            Instruction::BIT_U3_HL_PNTR { u3 } => {
                let byte = memory.read(self.registers.get_hl());
                self.bit(u3, byte);
                12
            },
            // Clear bit u3 in register r8.
            Instruction::RES_U3_R8 { u3, r8 } => {
                let bit = u3.get();
                self.res_r8(bit, r8);
                2
            },
            // Clear bit u3 in the byte pointed to by HL.
            Instruction::RES_U3_HL_PNTR { u3 } => {
                let bit = u3.get();
                let hl = self.registers.get_hl();
                self.res_hl(memory, bit, hl);
                4
            },
            // Set bit u3 in register r8 to 1; no flag effects.
            Instruction::SET_U3_R8 { u3, r8 } => {
                let mask = u3_mask(&u3);
                let value = self.registers.get_r8(&r8) | mask;
                self.registers.set_r8(&r8, value);
                8
            },
            // Set bit u3 in the byte pointed to by HL to 1; no flag effects.
            Instruction::SET_U3_HL_PNTR { u3 } => {
                let mask = u3_mask(&u3);
                let hl = self.registers.get_hl();
                let value = memory.read(hl) | mask;
                memory.write(hl, value);
                8
            },
            // every other variant is excluded by this function's precondition
            _ => 0,
        };
        proof {
            assert((*self, memory@, t_cycle) == spec_step_pre(*old(self), old(memory)@, i)) by {
                reveal(spec_step_pre);
            };
        }
        t_cycle
    }

    /// Whether the instruction is a leftward rotate landing in a register or the accumulator.
    spec fn is_rl_plain_reg_op(i: Instruction) -> bool {
        match i {
            Instruction::RL_R8 { .. }
            | Instruction::RLA
            | Instruction::RLC_R8 { .. } => true,
            _ => false,
        }
    }

    /// The architectural effect and cycle cost of a leftward rotate instruction.
    #[verifier::rlimit(100)]
    fn execute_rl_plain_reg(&mut self, i: Instruction, memory: &mut Memory) -> (t_cycle: u8)
        requires
            Self::is_rl_plain_reg_op(i),
            spec_mem_wf(old(memory)@),
        ensures
            spec_mem_wf(final(memory)@),
            (*final(self), final(memory)@, t_cycle) == spec_step_pre(
                *old(self),
                old(memory)@,
                i,
            ),
    {
        let t_cycle: u8 = match i {
            // Rotate register r8 left, through the carry flag.
            Instruction::RL_R8 { r8 } => {
                let v = self.registers.get_r8(&r8);
                let value = self.rotate_left_through_carry(v);
                self.registers.set_r8(&r8, value);
                self.registers.f = Flags {
                    zero: value == 0,
                    subtract: false,
                    half_carry: false,
                    carry: self.registers.f.carry,
                };
                8
            },
            // Rotate register A left, through the carry flag.
            Instruction::RLA => {
                let v = self.registers.a;
                let value = self.rotate_left_through_carry(v);
                self.registers.a = value;
                self.registers.f = Flags {
                    zero: false,
                    subtract: false,
                    half_carry: false,
                    carry: self.registers.f.carry,
                };
                4
            },
            // Rotate register r8 left.
            Instruction::RLC_R8 { r8 } => {
                let v = self.registers.get_r8(&r8);
                let value = self.rotate_left(v);
                self.registers.set_r8(&r8, value);
                self.registers.f = Flags {
                    zero: value == 0,
                    subtract: false,
                    half_carry: false,
                    carry: self.registers.f.carry,
                };
                8
            },
            // every other variant is excluded by this function's precondition
            _ => 0,
        };
        proof {
            assert((*self, memory@, t_cycle) == spec_step_pre(*old(self), old(memory)@, i)) by {
                reveal(spec_step_pre);
            };
        }
        t_cycle
    }

    /// Whether the instruction is a plain accumulator rotate left, an arithmetic shift left or a nibble swap in a register.
    spec fn is_rl_shift_reg_op(i: Instruction) -> bool {
        match i {
            Instruction::RLCA
            | Instruction::SLA_R8 { .. }
            | Instruction::SWAP_R8 { .. } => true,
            _ => false,
        }
    }

    /// The architectural effect and cycle cost of a left shift, accumulator rotate or swap instruction.
    #[verifier::rlimit(100)]
    fn execute_rl_shift_reg(&mut self, i: Instruction, memory: &mut Memory) -> (t_cycle: u8)
        requires
            Self::is_rl_shift_reg_op(i),
            spec_mem_wf(old(memory)@),
        ensures
            spec_mem_wf(final(memory)@),
            (*final(self), final(memory)@, t_cycle) == spec_step_pre(
                *old(self),
                old(memory)@,
                i,
            ),
    {
        let t_cycle: u8 = match i {
            // Rotate register A left.
            Instruction::RLCA => {
                let v = self.registers.a;
                let value = self.rotate_left(v);
                self.registers.a = value;
                self.registers.f = Flags {
                    zero: value == 0,
                    subtract: false,
                    half_carry: false,
                    carry: self.registers.f.carry,
                };
                4
            },
            // Shift register r8 left arithmetically.
            Instruction::SLA_R8 { r8 } => {
                let v = self.registers.get_r8(&r8);
                let result = self.rotate_arithmetic_left(v);
                self.registers.set_r8(&r8, result);
                self.registers.f = Flags {
                    zero: result == 0,
                    subtract: false,
                    half_carry: false,
                    carry: self.registers.f.carry,
                };
                8
            },
            // Exchange the two nibbles of register r8.
            Instruction::SWAP_R8 { r8 } => {
                let v = self.registers.get_r8(&r8);
                let result = self.swap(v);
                self.registers.set_r8(&r8, result);
                self.registers.f = Flags {
                    zero: result == 0,
                    subtract: false,
                    half_carry: false,
                    carry: false,
                };
                8
            },
            // every other variant is excluded by this function's precondition
            _ => 0,
        };
        proof {
            assert((*self, memory@, t_cycle) == spec_step_pre(*old(self), old(memory)@, i)) by {
                reveal(spec_step_pre);
            };
        }
        t_cycle
    }

    /// Whether the instruction is a rightward rotate landing in a register or the accumulator.
    spec fn is_rr_plain_reg_op(i: Instruction) -> bool {
        match i {
            Instruction::RR_R8 { .. }
            | Instruction::RRA
            | Instruction::RRC_R8 { .. } => true,
            _ => false,
        }
    }

    /// The architectural effect and cycle cost of a rightward rotate instruction.
    #[verifier::rlimit(100)]
    fn execute_rr_plain_reg(&mut self, i: Instruction, memory: &mut Memory) -> (t_cycle: u8)
        requires
            Self::is_rr_plain_reg_op(i),
            spec_mem_wf(old(memory)@),
        ensures
            spec_mem_wf(final(memory)@),
            (*final(self), final(memory)@, t_cycle) == spec_step_pre(
                *old(self),
                old(memory)@,
                i,
            ),
    {
        let t_cycle: u8 = match i {
            // Rotate register r8 right, through the carry flag.
            Instruction::RR_R8 { r8 } => {
                let v = self.registers.get_r8(&r8);
                let value = self.rotate_right_through_carry(v);
                self.registers.set_r8(&r8, value);
                self.registers.f = Flags {
                    zero: value == 0,
                    subtract: false,
                    half_carry: false,
                    carry: self.registers.f.carry,
                };
                8
            },
            // Rotate register A right, through the carry flag.
            Instruction::RRA => {
                let v = self.registers.a;
                let value = self.rotate_right_through_carry(v);
                self.registers.a = value;
                self.registers.f = Flags {
                    zero: false,
                    subtract: false,
                    half_carry: false,
                    carry: self.registers.f.carry,
                };
                4
            },
            // Rotate register r8 right.
            Instruction::RRC_R8 { r8 } => {
                let v = self.registers.get_r8(&r8);
                let value = self.rotate_right(v);
                self.registers.set_r8(&r8, value);
                self.registers.f = Flags {
                    zero: value == 0,
                    subtract: false,
                    half_carry: false,
                    carry: self.registers.f.carry,
                };
                8
            },
            // every other variant is excluded by this function's precondition
            _ => 0,
        };
        proof {
            assert((*self, memory@, t_cycle) == spec_step_pre(*old(self), old(memory)@, i)) by {
                reveal(spec_step_pre);
            };
        }
        t_cycle
    }

    /// Whether the instruction is a plain accumulator rotate right or an arithmetic/logical shift right in a register.
    spec fn is_rr_shift_reg_op(i: Instruction) -> bool {
        match i {
            Instruction::RRCA
            | Instruction::SRA_R8 { .. }
            | Instruction::SRL_R8 { .. } => true,
            _ => false,
        }
    }

    /// The architectural effect and cycle cost of a right shift or accumulator rotate instruction.
    #[verifier::rlimit(100)]
    fn execute_rr_shift_reg(&mut self, i: Instruction, memory: &mut Memory) -> (t_cycle: u8)
        requires
            Self::is_rr_shift_reg_op(i),
            spec_mem_wf(old(memory)@),
        ensures
            spec_mem_wf(final(memory)@),
            (*final(self), final(memory)@, t_cycle) == spec_step_pre(
                *old(self),
                old(memory)@,
                i,
            ),
    {
        let t_cycle: u8 = match i {
            // Rotate register A right.
            Instruction::RRCA => {
                let v = self.registers.a;
                let value = self.rotate_right(v);
                self.registers.a = value;
                self.registers.f = Flags {
                    zero: value == 0,
                    subtract: false,
                    half_carry: false,
                    carry: self.registers.f.carry,
                };
                4
            },
            // Shift register r8 right arithmetically (bit 7 unchanged).
            Instruction::SRA_R8 { r8 } => {
                let v = self.registers.get_r8(&r8);
                let result = self.rotate_arithmetic_right(v);
                self.registers.set_r8(&r8, result);
                self.registers.f = Flags {
                    zero: result == 0,
                    subtract: false,
                    half_carry: false,
                    carry: self.registers.f.carry,
                };
                8
            },
            // Shift register r8 right logically.
            Instruction::SRL_R8 { r8 } => {
                let v = self.registers.get_r8(&r8);
                let result = self.rotate_logical_right(v);
                self.registers.set_r8(&r8, result);
                self.registers.f = Flags {
                    zero: result == 0,
                    subtract: false,
                    half_carry: false,
                    carry: self.registers.f.carry,
                };
                8
            },
            // every other variant is excluded by this function's precondition
            _ => 0,
        };
        proof {
            assert((*self, memory@, t_cycle) == spec_step_pre(*old(self), old(memory)@, i)) by {
                reveal(spec_step_pre);
            };
        }
        t_cycle
    }

    /// Whether the instruction is a leftward rotate landing in the byte HL points to.
    spec fn is_rl_mem_a_op(i: Instruction) -> bool {
        match i {
            Instruction::RL_HL_PNTR
            | Instruction::RLC_HL_PNTR => true,
            _ => false,
        }
    }

    /// The architectural effect and cycle cost of a leftward memory rotate instruction.
    #[verifier::rlimit(100)]
    fn execute_rl_mem_a(&mut self, i: Instruction, memory: &mut Memory) -> (t_cycle: u8)
        requires
            Self::is_rl_mem_a_op(i),
            spec_mem_wf(old(memory)@),
        ensures
            spec_mem_wf(final(memory)@),
            (*final(self), final(memory)@, t_cycle) == spec_step_pre(
                *old(self),
                old(memory)@,
                i,
            ),
    {
        let t_cycle: u8 = match i {
            // Rotate the byte pointed to by HL left, through the carry flag.
            Instruction::RL_HL_PNTR => {
                let hl = self.registers.get_hl();
                let v = memory.read(hl);
                let value = self.rotate_left_through_carry(v);
                memory.write(hl, value);
                self.registers.f = Flags {
                    zero: value == 0,
                    subtract: false,
                    half_carry: false,
                    carry: self.registers.f.carry,
                };
                16
            },
            // Rotate the byte pointed to by HL left.
            Instruction::RLC_HL_PNTR => {
                let hl = self.registers.get_hl();
                let v = memory.read(hl);
                let value = self.rotate_left(v);
                memory.write(hl, value);
                self.registers.f = Flags {
                    zero: value == 0,
                    subtract: false,
                    half_carry: false,
                    carry: self.registers.f.carry,
                };
                16
            },
            // every other variant is excluded by this function's precondition
            _ => 0,
        };
        proof {
            assert((*self, memory@, t_cycle) == spec_step_pre(*old(self), old(memory)@, i)) by {
                reveal(spec_step_pre);
            };
        }
        t_cycle
    }

    /// Whether the instruction is an arithmetic shift left or a nibble swap landing in the byte HL points to.
    spec fn is_rl_mem_b_op(i: Instruction) -> bool {
        match i {
            Instruction::SLA_HL_PNTR
            | Instruction::SWAP_HL_PNTR => true,
            _ => false,
        }
    }

    /// The architectural effect and cycle cost of a memory left shift or swap instruction.
    #[verifier::rlimit(100)]
    fn execute_rl_mem_b(&mut self, i: Instruction, memory: &mut Memory) -> (t_cycle: u8)
        requires
            Self::is_rl_mem_b_op(i),
            spec_mem_wf(old(memory)@),
        ensures
            spec_mem_wf(final(memory)@),
            (*final(self), final(memory)@, t_cycle) == spec_step_pre(
                *old(self),
                old(memory)@,
                i,
            ),
    {
        let t_cycle: u8 = match i {
            // Shift the byte pointed to by HL left arithmetically.
            Instruction::SLA_HL_PNTR => {
                let hl = self.registers.get_hl();
                let v = memory.read(hl);
                let result = self.rotate_arithmetic_left(v);
                memory.write(hl, result);
                self.registers.f = Flags {
                    zero: result == 0,
                    subtract: false,
                    half_carry: false,
                    carry: self.registers.f.carry,
                };
                16
            },
            // Exchange the two nibbles of the byte pointed to by HL.
            Instruction::SWAP_HL_PNTR => {
                let hl = self.registers.get_hl();
                let v = memory.read(hl);
                let result = self.swap(v);
                memory.write(hl, result);
                self.registers.f = Flags {
                    zero: result == 0,
                    subtract: false,
                    half_carry: false,
                    carry: false,
                };
                16
            },
            // every other variant is excluded by this function's precondition
            _ => 0,
        };
        proof {
            assert((*self, memory@, t_cycle) == spec_step_pre(*old(self), old(memory)@, i)) by {
                reveal(spec_step_pre);
            };
        }
        t_cycle
    }

    /// Whether the instruction is a rightward rotate landing in the byte HL points to.
    spec fn is_rr_mem_a_op(i: Instruction) -> bool {
        match i {
            Instruction::RR_HL_PNTR
            | Instruction::RRC_HL_PNTR => true,
            _ => false,
        }
    }

    /// The architectural effect and cycle cost of a rightward memory rotate instruction.
    #[verifier::rlimit(100)]
    fn execute_rr_mem_a(&mut self, i: Instruction, memory: &mut Memory) -> (t_cycle: u8)
        requires
            Self::is_rr_mem_a_op(i),
            spec_mem_wf(old(memory)@),
        ensures
            spec_mem_wf(final(memory)@),
            (*final(self), final(memory)@, t_cycle) == spec_step_pre(
                *old(self),
                old(memory)@,
                i,
            ),
    {
        let t_cycle: u8 = match i {
            // Rotate the byte pointed to by HL right, through the carry
            // flag.
            Instruction::RR_HL_PNTR => {
                let hl = self.registers.get_hl();
                let v = memory.read(hl);
                let value = self.rotate_right_through_carry(v);
                memory.write(hl, value);
                self.registers.f = Flags {
                    zero: value == 0,
                    subtract: false,
                    half_carry: false,
                    carry: self.registers.f.carry,
                };
                16
            },
            // Rotate the byte pointed to by HL right.
            Instruction::RRC_HL_PNTR => {
                let hl = self.registers.get_hl();
                let v = memory.read(hl);
                let value = self.rotate_right(v);
                memory.write(hl, value);
                self.registers.f = Flags {
                    zero: value == 0,
                    subtract: false,
                    half_carry: false,
                    carry: self.registers.f.carry,
                };
                16
            },
            // every other variant is excluded by this function's precondition
            _ => 0,
        };
        proof {
            assert((*self, memory@, t_cycle) == spec_step_pre(*old(self), old(memory)@, i)) by {
                reveal(spec_step_pre);
            };
        }
        t_cycle
    }

    /// Whether the instruction is an arithmetic or logical shift right landing in the byte HL points to.
    spec fn is_rr_mem_b_op(i: Instruction) -> bool {
        match i {
            Instruction::SRA_HL_PNTR
            | Instruction::SRL_HL_PNTR => true,
            _ => false,
        }
    }

    /// The architectural effect and cycle cost of a memory right shift instruction.
    #[verifier::rlimit(100)]
    fn execute_rr_mem_b(&mut self, i: Instruction, memory: &mut Memory) -> (t_cycle: u8)
        requires
            Self::is_rr_mem_b_op(i),
            spec_mem_wf(old(memory)@),
        ensures
            spec_mem_wf(final(memory)@),
            (*final(self), final(memory)@, t_cycle) == spec_step_pre(
                *old(self),
                old(memory)@,
                i,
            ),
    {
        let t_cycle: u8 = match i {
            // Shift the byte pointed to by HL right arithmetically.
            Instruction::SRA_HL_PNTR => {
                let hl = self.registers.get_hl();
                let v = memory.read(hl);
                let result = self.rotate_arithmetic_right(v);
                memory.write(hl, result);
                self.registers.f = Flags {
                    zero: result == 0,
                    subtract: false,
                    half_carry: false,
                    carry: self.registers.f.carry,
                };
                16
            },
            // Shift the byte pointed to by HL right logically.
            Instruction::SRL_HL_PNTR => {
                let hl = self.registers.get_hl();
                let v = memory.read(hl);
                let result = self.rotate_logical_right(v);
                memory.write(hl, result);
                self.registers.f = Flags {
                    zero: result == 0,
                    subtract: false,
                    half_carry: false,
                    carry: self.registers.f.carry,
                };
                8
            },
            // every other variant is excluded by this function's precondition
            _ => 0,
        };
        proof {
            assert((*self, memory@, t_cycle) == spec_step_pre(*old(self), old(memory)@, i)) by {
                reveal(spec_step_pre);
            };
        }
        t_cycle
    }

    /// Perform one decoded instruction's full architectural effect exactly
    /// once and return its canonical cycle cost; then advance the
    /// interrupt-enable state machine, as happens at the end of every
    /// executed instruction (the enabling instruction itself included).
    /// Total: every instruction variant has defined behavior, and every
    /// memory access resolves.
    pub fn execute(&mut self, i: Instruction, memory: &mut Memory) -> (t_cycle: u8)
        requires
            spec_mem_wf(old(memory)@),
        ensures
            spec_mem_wf(final(memory)@),
            (*final(self), final(memory)@, t_cycle) == spec_step(
                *old(self),
                old(memory)@,
                i,
            ),
    {
        let t_cycle: u8 = match i {
            Instruction::ADC_A_R8 { .. }
            | Instruction::ADC_A_HL_PNTR
            | Instruction::ADC_A_N8 { .. }
            | Instruction::ADD_A_R8 { .. }
            | Instruction::ADD_A_HL_PNTR
            | Instruction::ADD_A_N8 { .. }
            | Instruction::AND_A_R8 { .. }
            | Instruction::AND_A_HL_PNTR
            | Instruction::AND_A_N8 { .. }
            | Instruction::CP_A_R8 { .. }
            | Instruction::CP_A_HL_PNTR
            | Instruction::CP_A_N8 { .. }
            | Instruction::OR_A_R8 { .. }
            | Instruction::OR_A_HL_PNTR
            | Instruction::OR_A_N8 { .. }
            | Instruction::SBC_A_R8 { .. }
            | Instruction::SBC_A_HL_PNTR
            | Instruction::SBC_A_N8 { .. }
            | Instruction::SUB_A_R8 { .. }
            | Instruction::SUB_A_HL_PNTR
            | Instruction::SUB_A_N8 { .. }
            | Instruction::XOR_A_R8 { .. }
            | Instruction::XOR_A_HL_PNTR
            | Instruction::XOR_A_N8 { .. } => self.execute_acc_alu(i, memory),
            Instruction::ADD_HL_R16 { .. }
            | Instruction::ADD_HL_SP
            | Instruction::ADD_SP_E8 { .. }
            | Instruction::CCF
            | Instruction::CPL
            | Instruction::DAA
            | Instruction::SCF
            | Instruction::INC_R8 { .. }
            | Instruction::INC_HL_PNTR
            | Instruction::INC_R16 { .. }
            | Instruction::INC_SP
            | Instruction::DEC_R8 { .. }
            | Instruction::DEC_HL_PNTR
            | Instruction::DEC_R16 { .. }
            | Instruction::DEC_SP => self.execute_inc_dec_adjust(i, memory),
            Instruction::LD_R8_R8 { .. }
            | Instruction::LD_R8_N8 { .. }
            | Instruction::LD_R16_R16 { .. }
            | Instruction::LD_HL_PNTR_R8 { .. }
            | Instruction::LD_HL_PNTR_N8 { .. }
            | Instruction::LD_R8_HL_PNTR { .. }
            | Instruction::LD_R16_PNTR_A { .. }
            | Instruction::LD_N16_PNTR_A { .. }
            | Instruction::LDH_N16_PNTR_A { .. }
            | Instruction::LDH_C_PNTR_A
            | Instruction::LD_A_R16_PNTR { .. } => self.execute_load_a(i, memory),
            Instruction::LD_A_N16_PNTR { .. }
            | Instruction::LDH_A_N16_PNTR { .. }
            | Instruction::LDH_A_C_PNTR
            | Instruction::LD_HLI_PNTR_A
            | Instruction::LD_HLD_PNTR_A
            | Instruction::LD_A_HLI_PNTR
            | Instruction::LD_A_HLD_PNTR
            | Instruction::LD_SP_N16 { .. }
            | Instruction::LD_N16_PNTR_SP { .. }
            | Instruction::LD_HL_SPE8 { .. }
            | Instruction::LD_SP_HL => self.execute_load_b(i, memory),
            Instruction::POP_AF
            | Instruction::POP_R16 { .. }
            | Instruction::PUSH_AF
            | Instruction::PUSH_R16 { .. } => self.execute_stack(i, memory),
            Instruction::CALL_N16 { .. }
            | Instruction::CALL_CC_N16 { .. }
            | Instruction::DI
            | Instruction::EI
            | Instruction::HALT
            | Instruction::JP_N16 { .. }
            | Instruction::JP_CC_N16 { .. }
            | Instruction::JP_HL
            | Instruction::JR_N16 { .. }
            | Instruction::JR_CC_N16 { .. }
            | Instruction::NOP
            | Instruction::RET
            | Instruction::RET_CC { .. }
            | Instruction::RETI
            | Instruction::RST { .. }
            | Instruction::STOP => self.execute_control(i, memory),
            Instruction::BIT_U3_R8 { .. }
            | Instruction::BIT_U3_HL_PNTR { .. }
            | Instruction::RES_U3_R8 { .. }
            | Instruction::RES_U3_HL_PNTR { .. }
            | Instruction::SET_U3_R8 { .. }
            | Instruction::SET_U3_HL_PNTR { .. } => self.execute_single_bit(i, memory),
            Instruction::RL_R8 { .. }
            | Instruction::RLA
            | Instruction::RLC_R8 { .. } => self.execute_rl_plain_reg(i, memory),
            Instruction::RLCA
            | Instruction::SLA_R8 { .. }
            | Instruction::SWAP_R8 { .. } => self.execute_rl_shift_reg(i, memory),
            Instruction::RR_R8 { .. }
            | Instruction::RRA
            | Instruction::RRC_R8 { .. } => self.execute_rr_plain_reg(i, memory),
            Instruction::RRCA
            | Instruction::SRA_R8 { .. }
            | Instruction::SRL_R8 { .. } => self.execute_rr_shift_reg(i, memory),
            Instruction::RL_HL_PNTR
            | Instruction::RLC_HL_PNTR => self.execute_rl_mem_a(i, memory),
            Instruction::SLA_HL_PNTR
            | Instruction::SWAP_HL_PNTR => self.execute_rl_mem_b(i, memory),
            Instruction::RR_HL_PNTR
            | Instruction::RRC_HL_PNTR => self.execute_rr_mem_a(i, memory),
            Instruction::SRA_HL_PNTR
            | Instruction::SRL_HL_PNTR => self.execute_rr_mem_b(i, memory),
        };
        // End-of-instruction advance of the interrupt-enable state machine.
        if self.ime_state == ImeState::PendingInstructionCompletion {
            self.ime_state = ImeState::Enabled;
        } else if self.ime_state == ImeState::PendingNewInstruction {
            self.ime_state = ImeState::PendingInstructionCompletion;
        }
        t_cycle
    }
}

/// No instruction other than DI, EI and RETI drives the interrupt-enable
/// state machine during its architectural effect; only the
/// end-of-instruction epilogue moves it.
#[verifier::rlimit(100)]
proof fn lemma_step_pre_preserves_ime(c: Cpu, m: MemoryView, i: Instruction)
    requires
        !(i matches Instruction::DI),
        !(i matches Instruction::EI),
        !(i matches Instruction::RETI),
    ensures
        spec_step_pre(c, m, i).0.ime_state == c.ime_state,
{
    reveal(spec_step_pre);
}

/// Law: enabling interrupts is delayed, never immediate. After the enabling
/// instruction itself completes (from any state without an enable already
/// about to land) interrupts are still not enabled: the machine sits one
/// step short, and they become enabled exactly when one further instruction
/// — any instruction that does not itself drive the interrupt-enable
/// machine — has completed.
pub proof fn lemma_ei_delay(c: Cpu, m: MemoryView, i: Instruction)
    requires
        c.ime_state != ImeState::PendingInstructionCompletion,
        !(i matches Instruction::DI),
        !(i matches Instruction::EI),
        !(i matches Instruction::RETI),
    ensures
        ({
            let (c1, m1, t1) = spec_step(c, m, Instruction::EI);
            &&& c1.ime_state == ImeState::PendingInstructionCompletion
            &&& c1.ime_state != ImeState::Enabled
            &&& spec_step(c1, m1, i).0.ime_state == ImeState::Enabled
        }),
{
    assert(spec_step_pre(c, m, Instruction::EI).0.ime_state
        == ImeState::PendingNewInstruction) by {
        reveal(spec_step_pre);
    };
    let (c1, m1, t1) = spec_step(c, m, Instruction::EI);
    lemma_step_pre_preserves_ime(c1, m1, i);
}

/// Law: disabling interrupts is immediate and unconditional. Whatever the
/// interrupt-enable machine held before — a pending enable included — after
/// DI it holds the disabled state, with no delay.
pub proof fn lemma_di_immediate(c: Cpu, m: MemoryView)
    ensures
        spec_step(c, m, Instruction::DI).0.ime_state == ImeState::Unset,
{
    reveal(spec_step_pre);
}

} // verus!
