//! The CPU core: owns a register file, a program counter and a stack
//! pointer, and executes one decoded instruction per call.
//!
//! The implemented instruction family is ADD-to-accumulator with source
//! registers B, C, D and E. A raw opcode byte is first decoded into the
//! typed instruction form; an opcode outside the table is reported as a
//! recoverable error, never a crash.

use vstd::prelude::*;

verus! {

use crate::registers::{FlagsRegister, Registers, flags_to_byte, spec_flags_to_byte};

/// The operand selector of an arithmetic instruction: which register
/// supplies the second operand.
#[derive(Clone, Copy, PartialEq, Eq, Structural, Debug)]
pub enum ArithmeticTarget {
    B,
    C,
    D,
    E,
}

/// A decoded instruction: an instruction family together with its operand
/// target. Only the ADD family is implemented.
#[derive(Clone, Copy, PartialEq, Eq, Structural, Debug)]
pub enum Instruction {
    Add(ArithmeticTarget),
}

/// An execution-level error: the given opcode is not in the decode table.
#[derive(Clone, Copy, PartialEq, Eq, Structural, Debug)]
pub enum CpuError {
    UnknownOpcode,
}

/// The CPU core state: register file, program counter, stack pointer.
pub struct CPU {
    pub registers: Registers,
    pub pc: u16,
    pub sp: u16,
}

/// The instruction a raw opcode byte decodes to, if any: 0x80 through 0x83
/// are ADD from B, C, D and E.
pub open spec fn spec_decode(opcode: u8) -> Option<Instruction> {
    if opcode == 0x80 {
        Some(Instruction::Add(ArithmeticTarget::B))
    } else if opcode == 0x81 {
        Some(Instruction::Add(ArithmeticTarget::C))
    } else if opcode == 0x82 {
        Some(Instruction::Add(ArithmeticTarget::D))
    } else if opcode == 0x83 {
        Some(Instruction::Add(ArithmeticTarget::E))
    } else {
        None
    }
}

/// The register a target selects, read from a register file.
pub open spec fn spec_target_value(r: Registers, target: ArithmeticTarget) -> u8 {
    match target {
        ArithmeticTarget::B => r.b,
        ArithmeticTarget::C => r.c,
        ArithmeticTarget::D => r.d,
        ArithmeticTarget::E => r.e,
    }
}

/// The 8-bit wrapping sum of the accumulator and an operand.
pub open spec fn spec_add_result(a: u8, value: u8) -> u8 {
    ((a + value) % 0x100) as u8
}

/// The flags an ADD derives: zero iff the wrapped sum is zero, subtract
/// always false, half-carry iff the low nibbles alone overflow a nibble,
/// carry iff the full 8-bit addition overflows.
pub open spec fn spec_add_flags(a: u8, value: u8) -> FlagsRegister {
    FlagsRegister {
        zero: (a + value) % 0x100 == 0,
        subtract: false,
        half_carry: (a & 0xF) + (value & 0xF) > 0xF,
        carry: a + value > 0xFF,
    }
}

/// The CPU state after executing an instruction: for ADD, the accumulator
/// holds the wrapped sum with the selected register, the flags register
/// encodes the derived flags, and everything else is unchanged.
pub open spec fn spec_execute(cpu: CPU, instruction: Instruction) -> CPU {
    match instruction {
        Instruction::Add(target) => {
            let value = spec_target_value(cpu.registers, target);
            CPU {
                registers: Registers {
                    a: spec_add_result(cpu.registers.a, value),
                    f: spec_flags_to_byte(spec_add_flags(cpu.registers.a, value)),
                    ..cpu.registers
                },
                ..cpu
            }
        },
    }
}

/// Decodes a raw opcode byte into the typed instruction form.
pub fn decode(opcode: u8) -> (r: Option<Instruction>)
    ensures
        r == spec_decode(opcode),
{
    match opcode {
        0x80 => Some(Instruction::Add(ArithmeticTarget::B)),
        0x81 => Some(Instruction::Add(ArithmeticTarget::C)),
        0x82 => Some(Instruction::Add(ArithmeticTarget::D)),
        0x83 => Some(Instruction::Add(ArithmeticTarget::E)),
        _ => None,
    }
}

impl CPU {
    /// A freshly constructed core: registers zeroed, pc and sp zero.
    pub fn new() -> (cpu: CPU)
        ensures
            cpu.registers == (Registers { a: 0, f: 0, b: 0, c: 0, d: 0, e: 0, h: 0, l: 0 }),
            cpu.pc == 0,
            cpu.sp == 0,
    {
        CPU { registers: Registers::new(), pc: 0x0000, sp: 0x0000 }
    }

    /// Decodes and executes one raw opcode: an opcode in the table mutates
    /// the state as `spec_execute` says; any other opcode leaves the state
    /// untouched and reports an unknown-opcode error.
    pub fn execute_cycle(&mut self, opcode: u8) -> (r: Result<(), CpuError>)
        ensures
            match spec_decode(opcode) {
                Some(instruction) => r is Ok && *final(self) == spec_execute(
                    *old(self),
                    instruction,
                ),
                None => r == Err::<(), CpuError>(CpuError::UnknownOpcode) && *final(self) == *old(
                    self,
                ),
            },
    {
        match decode(opcode) {
            Some(instruction) => {
                self.execute_instruction(instruction);
                Ok(())
            },
            None => Err(CpuError::UnknownOpcode),
        }
    }

    /// Executes one typed instruction, mutating registers and flags in
    /// place.
    pub fn execute_instruction(&mut self, instruction: Instruction)
        ensures
            *final(self) == spec_execute(*old(self), instruction),
    {
        match instruction {
            Instruction::Add(target) => {
                let value: u8 = match target {
                    ArithmeticTarget::B => self.registers.b,
                    ArithmeticTarget::C => self.registers.c,
                    ArithmeticTarget::D => self.registers.d,
                    ArithmeticTarget::E => self.registers.e,
                };
                self.registers.a = self.add(value);
            },
        }
    }

    /// The arithmetic primitive behind ADD: computes the 8-bit wrapping sum
    /// of the accumulator and `value`, derives all four flags into the
    /// flags register, and returns the sum without writing the accumulator
    /// back (the caller routes the result).
    pub fn add(&mut self, value: u8) -> (r: u8)
        ensures
            r == spec_add_result(old(self).registers.a, value),
            final(self).registers == (Registers {
                f: spec_flags_to_byte(spec_add_flags(old(self).registers.a, value)),
                ..old(self).registers
            }),
            final(self).pc == old(self).pc,
            final(self).sp == old(self).sp,
    {
        let a: u8 = self.registers.a;
        let new_value: u8 = a.wrapping_add(value);
        let did_overflow: bool = (a as u16) + (value as u16) > 0xFF;
        proof {
            assert(a & 0xF < 0x10 && value & 0xF < 0x10) by (bit_vector);
            assert(new_value == spec_add_result(a, value));
        }
        self.registers.f = flags_to_byte(
            FlagsRegister {
                zero: new_value == 0,
                subtract: false,
                half_carry: (a & 0xF) + (value & 0xF) > 0xF,
                carry: did_overflow,
            },
        );
        new_value
    }
}

} // verus!
