use vstd::prelude::*;

use crate::cpu::{add16, Cpu};
use crate::cpu_components::{FlagsRegister, MemoryBus};

verus! {

broadcast use MemoryBus::lemma_view_len, MemoryBus::lemma_spec_write;

/// The 8-bit arithmetic and logical operations on A, in the order of bits 5-3 of their opcodes.
pub enum AluOperation {
    Add,
    Adc,
    Sub,
    Sbc,
    And,
    Xor,
    Or,
    Cp,
}

/// The ALU operation with the given code (bits 5-3 of an ALU opcode).
pub open spec fn alu_operation_of(code: int) -> AluOperation {
    if code == 0 {
        AluOperation::Add
    } else if code == 1 {
        AluOperation::Adc
    } else if code == 2 {
        AluOperation::Sub
    } else if code == 3 {
        AluOperation::Sbc
    } else if code == 4 {
        AluOperation::And
    } else if code == 5 {
        AluOperation::Xor
    } else if code == 6 {
        AluOperation::Or
    } else {
        AluOperation::Cp
    }
}

/// The result and flags of `a + value + carry_in` (carry_in 0 or 1): Z if the result is 0,
/// N reset, H on a carry from bit 3, C on a carry from bit 7.
pub open spec fn spec_add(a: u8, value: u8, carry_in: int) -> (u8, FlagsRegister) {
    let sum = a + value + carry_in;
    (
        (sum % 256) as u8,
        FlagsRegister {
            z: sum % 256 == 0,
            n: false,
            h: a % 16 + value % 16 + carry_in > 15,
            c: sum > 255,
        },
    )
}

/// The result and flags of `a - value - borrow_in` (borrow_in 0 or 1): Z if the result is 0,
/// N set, H on a borrow from bit 4, C on a borrow.
pub open spec fn spec_sub(a: u8, value: u8, borrow_in: int) -> (u8, FlagsRegister) {
    let difference = a - value - borrow_in;
    (
        ((difference + 512) % 256) as u8,
        FlagsRegister {
            z: (difference + 512) % 256 == 0,
            n: true,
            h: a % 16 < value % 16 + borrow_in,
            c: a < value + borrow_in,
        },
    )
}

/// The flags of a logical operation with result `result`: Z if 0, N and C reset, H as given.
pub open spec fn spec_logic_flags(result: u8, h: bool) -> FlagsRegister {
    FlagsRegister { z: result == 0, n: false, h, c: false }
}

/// Adding `carry_in` to `value` first and then the sum to `a` gives the result and flags of
/// the single addition `a + value + carry_in`.
proof fn lemma_add_in_two_steps(a: u8, value: u8, carry_in: u8)
    requires
        carry_in <= 1,
    ensures
        ({
            let temp = ((value + carry_in) % 256) as u8;
            let (r, f) = spec_add(a, value, carry_in as int);
            &&& r == ((a + temp) % 256) as u8
            &&& f.h == (value % 16 + carry_in % 16 > 15 || a % 16 + temp % 16 > 15)
            &&& f.c == (value + carry_in > 255 || a + temp > 255)
        }),
{
    if carry_in == 1 && value == 255 {
        assert(((value + carry_in) % 256) as u8 == 0);
    } else {
        assert(((value + carry_in) % 256) as u8 == value + carry_in);
    }
}

impl Cpu {
    /// The carry flag as 0 or 1.
    pub open spec fn spec_carry(self) -> int {
        if self.registers.flags.c {
            1
        } else {
            0
        }
    }

    /// The CPU after applying an ALU operation to A and `value`.
    pub open spec fn spec_alu(self, operation: AluOperation, value: u8) -> Cpu {
        let a = self.registers.a;
        match operation {
            AluOperation::Add => {
                let (r, f) = spec_add(a, value, 0);
                self.set_a(r).set_flags(f)
            },
            AluOperation::Adc => {
                let (r, f) = spec_add(a, value, self.spec_carry());
                self.set_a(r).set_flags(f)
            },
            AluOperation::Sub => {
                let (r, f) = spec_sub(a, value, 0);
                self.set_a(r).set_flags(f)
            },
            AluOperation::Sbc => {
                let (r, f) = spec_sub(a, value, self.spec_carry());
                self.set_a(r).set_flags(f)
            },
            AluOperation::And => self.set_a(a & value).set_flags(spec_logic_flags(a & value, true)),
            AluOperation::Xor => self.set_a(a ^ value).set_flags(spec_logic_flags(a ^ value, false)),
            AluOperation::Or => self.set_a(a | value).set_flags(spec_logic_flags(a | value, false)),
            AluOperation::Cp => self.set_flags(spec_sub(a, value, 0).1),
        }
    }

    /// The operand register of an ALU opcode: bits 2-0.
    pub open spec fn spec_source_value(self, opcode: u8) -> u8 {
        self.registers.spec_get_8bit(opcode % 8)
    }

    /// INC r / INC (HL) on `value`: the incremented value and flags (Z, N reset, H on a carry
    /// from bit 3; C unchanged).
    pub open spec fn spec_inc_flags(self, value: u8) -> FlagsRegister {
        FlagsRegister {
            z: (value + 1) % 256 == 0,
            n: false,
            h: value % 16 == 15,
            ..self.registers.flags
        }
    }

    /// DEC r / DEC (HL) on `value`: flags Z, N set, H on a borrow from bit 4; C unchanged.
    pub open spec fn spec_dec_flags(self, value: u8) -> FlagsRegister {
        FlagsRegister {
            z: (value + 255) % 256 == 0,
            n: true,
            h: value % 16 == 0,
            ..self.registers.flags
        }
    }

    /// INC r: the destination register (bits 5-3) is incremented (wrapping).
    pub open spec fn spec_inc_r(self, opcode: u8) -> Cpu {
        let d = (opcode / 8) % 8;
        let value = self.registers.spec_get_8bit(d);
        self.set_regs(
            self.registers.with_flags(self.spec_inc_flags(value)).spec_set_8bit(
                d,
                ((value + 1) % 256) as u8,
            ),
        ).add_cycles(4)
    }

    /// INC (HL): the byte at HL is incremented (wrapping).
    pub open spec fn spec_inc_hl(self) -> Cpu {
        let value = self.spec_at_hl();
        self.set_flags(self.spec_inc_flags(value)).set_mem(
            self.registers.spec_hl(),
            ((value + 1) % 256) as u8,
        ).add_cycles(8)
    }

    /// DEC r: the destination register (bits 5-3) is decremented (wrapping).
    pub open spec fn spec_dec_r(self, opcode: u8) -> Cpu {
        let d = (opcode / 8) % 8;
        let value = self.registers.spec_get_8bit(d);
        self.set_regs(
            self.registers.with_flags(self.spec_dec_flags(value)).spec_set_8bit(
                d,
                ((value + 255) % 256) as u8,
            ),
        ).add_cycles(4)
    }

    /// DEC (HL): the byte at HL is decremented (wrapping).
    pub open spec fn spec_dec_hl(self) -> Cpu {
        let value = self.spec_at_hl();
        self.set_flags(self.spec_dec_flags(value)).set_mem(
            self.registers.spec_hl(),
            ((value + 255) % 256) as u8,
        ).add_cycles(12)
    }

    /// Adds `value` to A (ADD A, s).
    fn add_a_value(&mut self, value: u8)
        ensures
            *final(self) == old(self).spec_alu(AluOperation::Add, value),
    {
        let carry = (self.registers.a as u16) + (value as u16) > 0xFF;
        let result = self.registers.a.wrapping_add(value);
        let h_flag = FlagsRegister::calculate_h_flag_on_add(self.registers.a, value);

        self.registers.a = result;
        self.registers.flags.n = false;
        self.registers.flags.set_c_flag(carry);
        self.registers.flags.set_z_flag_from_u8(result);
        self.registers.flags.set_h_flag(h_flag);
    }

    /// ADD A, r: adds the source register (bits 2-0) to A.
    /// Example: A = 0x3A, B = 0xC6: ADD A, B gives A = 0, Z = 1, H = 1, N = 0, CY = 1.
    pub fn add_a_r(&mut self, opcode: u8)
        ensures
            *final(self) == old(self).spec_alu(AluOperation::Add, old(self).spec_source_value(opcode)).add_cycles(4),
    {
        let source = Cpu::get_source_register(opcode);
        let value = self.registers.get_8bit_register_value(source);
        self.add_a_value(value);
        self.increment_clock_cycles(4);
    }

    /// ADD A, n: adds the immediate byte to A; PC skips it.
    /// Example: A = 0x3C: ADD A, 0xFF gives A = 0x3B, Z = 0, H = 1, N = 0, CY = 1.
    pub fn add_a_n(&mut self)
        ensures
            *final(self) == old(self).spec_alu(AluOperation::Add, old(self).spec_imm8()).advance_pc(1).add_cycles(8),
    {
        let value = self.get_imm8();
        self.add_a_value(value);
        self.registers.increment_pc();
        self.increment_clock_cycles(8);
    }

    /// ADD A, (HL): adds the byte at HL to A.
    /// Example: A = 0x3C, (HL) = 0x12: ADD A, (HL) gives A = 0x4E, Z = 0, H = 0, N = 0, CY = 0.
    pub fn add_a_hl(&mut self)
        ensures
            *final(self) == old(self).spec_alu(AluOperation::Add, old(self).spec_at_hl()).add_cycles(8),
    {
        let value = self.get_memory_value_at_hl();
        self.add_a_value(value);
        self.increment_clock_cycles(8);
    }

    /// ADC A, r: adds the source register (bits 2-0) and CY to A.
    pub fn adc_a_r(&mut self, opcode: u8)
        ensures
            *final(self) == old(self).spec_alu(AluOperation::Adc, old(self).spec_source_value(opcode)).add_cycles(4),
    {
        let source = Cpu::get_source_register(opcode);
        let value = self.registers.get_8bit_register_value(source);
        self.adc_a_value(value);
        self.increment_clock_cycles(4);
    }

    /// ADC A, n: adds the immediate byte and CY to A; PC skips it.
    pub fn adc_a_imm8(&mut self)
        ensures
            *final(self) == old(self).spec_alu(AluOperation::Adc, old(self).spec_imm8()).advance_pc(1).add_cycles(8),
    {
        let value = self.get_imm8();
        self.adc_a_value(value);
        self.registers.increment_pc();
        self.increment_clock_cycles(8);
    }

    /// ADC A, (HL): adds the byte at HL and CY to A.
    pub fn adc_a_hl(&mut self)
        ensures
            *final(self) == old(self).spec_alu(AluOperation::Adc, old(self).spec_at_hl()),
    {
        let value = self.get_memory_value_at_hl();
        self.adc_a_value(value);
    }

    /// Adds `value` and CY to A: CY is first added to `value`, then the sum to A; H and C
    /// collect the carries of both additions.
    /// Examples: A = 0xE1, E = 0x0F, (HL) = 0x1E, CY = 1: ADC A, E gives A = 0xF1, Z = 0, H = 1,
    /// CY = 0; ADC A, 0x3B gives A = 0x1D, Z = 0, H = 0, CY = 1; ADC A, (HL) gives A = 0, Z = 1,
    /// H = 1, CY = 1.
    #[verifier::spinoff_prover]
    #[verifier::rlimit(30)]
    pub fn adc_a_value(&mut self, value: u8)
        ensures
            *final(self) == old(self).spec_alu(AluOperation::Adc, value),
    {
        let cy = self.registers.flags.get_c_flag_u8();
        proof {
            lemma_add_in_two_steps(self.registers.a, value, cy);
        }

        let temp_carry = (value as u16) + (cy as u16) > 0xFF;
        let temp_result = value.wrapping_add(cy);
        let mut h_flag: bool = FlagsRegister::calculate_h_flag_on_add(value, cy);

        let final_carry = (self.registers.a as u16) + (temp_result as u16) > 0xFF;
        let final_result = self.registers.a.wrapping_add(temp_result);
        h_flag = h_flag || FlagsRegister::calculate_h_flag_on_add(self.registers.a, temp_result);

        self.registers.a = final_result;
        self.registers.flags.n = false;
        self.registers.flags.set_c_flag(temp_carry || final_carry);
        self.registers.flags.set_z_flag_from_u8(final_result);
        self.registers.flags.set_h_flag(h_flag);
    }

    /// SUB r: subtracts the source register (bits 2-0) from A.
    pub fn sub_a_r(&mut self, opcode: u8)
        ensures
            *final(self) == old(self).spec_alu(AluOperation::Sub, old(self).spec_source_value(opcode)).add_cycles(4),
    {
        let source = Cpu::get_source_register(opcode);
        let value = self.registers.get_8bit_register_value(source);
        self.sub_a_value(value);
        self.increment_clock_cycles(4);
    }

    /// SUB n: subtracts the immediate byte from A; PC skips it.
    pub fn sub_a_imm8(&mut self)
        ensures
            *final(self) == old(self).spec_alu(AluOperation::Sub, old(self).spec_imm8()).advance_pc(1).add_cycles(8),
    {
        let value = self.get_imm8();
        self.sub_a_value(value);
        self.registers.increment_pc();
        self.increment_clock_cycles(8);
    }

    /// SUB (HL): subtracts the byte at HL from A.
    pub fn sub_a_hl(&mut self)
        ensures
            *final(self) == old(self).spec_alu(AluOperation::Sub, old(self).spec_at_hl()).add_cycles(8),
    {
        let value = self.get_memory_value_at_hl();
        self.sub_a_value(value);
        self.increment_clock_cycles(8);
    }

    /// Subtracts `value` from A. Z if the result is 0, H on a borrow from bit 4, N set,
    /// CY on a borrow.
    pub fn sub_a_value(&mut self, value: u8)
        ensures
            *final(self) == old(self).spec_alu(AluOperation::Sub, value),
    {
        let result = self.registers.a.wrapping_sub(value);
        let half_carry = (self.registers.a & 0x0F) < (value & 0x0F);
        proof {
            crate::bits::lemma_shift_right(self.registers.a);
            crate::bits::lemma_shift_right(value);
        }
        let carry = self.registers.a < value;

        self.registers.a = result;
        self.registers.flags.n = true;
        self.registers.flags.set_c_flag(carry);
        self.registers.flags.set_z_flag_from_u8(result);
        self.registers.flags.set_h_flag(half_carry);
    }

    /// SBC A, r: subtracts the source register (bits 2-0) and CY from A.
    pub fn sbc_a_r(&mut self, opcode: u8)
        ensures
            *final(self) == old(self).spec_alu(AluOperation::Sbc, old(self).spec_source_value(opcode)).add_cycles(4),
    {
        let source = Cpu::get_source_register(opcode);
        let value = self.registers.get_8bit_register_value(source);
        self.sbc_a_value(value);
        self.increment_clock_cycles(4);
    }

    /// SBC A, n: subtracts the immediate byte and CY from A; PC skips it.
    pub fn sbc_a_imm8(&mut self)
        ensures
            *final(self) == old(self).spec_alu(AluOperation::Sbc, old(self).spec_imm8()).advance_pc(1).add_cycles(8),
    {
        let value = self.get_imm8();
        self.sbc_a_value(value);
        self.registers.increment_pc();
        self.increment_clock_cycles(8);
    }

    /// SBC A, (HL): subtracts the byte at HL and CY from A.
    pub fn sbc_a_hl(&mut self)
        ensures
            *final(self) == old(self).spec_alu(AluOperation::Sbc, old(self).spec_at_hl()).add_cycles(8),
    {
        let value = self.get_memory_value_at_hl();
        self.sbc_a_value(value);
        self.increment_clock_cycles(8);
    }

    /// Subtracts `value` and CY from A: `value` first, then CY; H and C collect the borrows of
    /// both subtractions.
    #[verifier::spinoff_prover]
    #[verifier::rlimit(30)]
    pub fn sbc_a_value(&mut self, value: u8)
        ensures
            *final(self) == old(self).spec_alu(AluOperation::Sbc, value),
    {
        let mut result = self.registers.a.wrapping_sub(value);
        proof {
            crate::bits::lemma_shift_right(self.registers.a);
            crate::bits::lemma_shift_right(value);
            crate::bits::lemma_shift_right(result);
        }
        let mut half_carry = (self.registers.a & 0x0F) < (value & 0x0F);
        let mut carry = self.registers.a < value;

        if self.registers.flags.c {
            half_carry = half_carry || (result & 0x0F) < 1;
            carry = carry || result < 1;
            result = result.wrapping_sub(1);
        }
        self.registers.a = result;
        self.registers.flags.n = true;
        self.registers.flags.set_c_flag(carry);
        self.registers.flags.set_z_flag_from_u8(result);
        self.registers.flags.set_h_flag(half_carry);
    }

    /// AND r: A takes A AND the source register (bits 2-0).
    pub fn and_a_r(&mut self, opcode: u8)
        ensures
            *final(self) == old(self).spec_alu(AluOperation::And, old(self).spec_source_value(opcode)).add_cycles(4),
    {
        let source = Cpu::get_source_register(opcode);
        let value = self.registers.get_8bit_register_value(source);
        self.and_a_value(value);
        self.increment_clock_cycles(4);
    }

    /// AND n: A takes A AND the immediate byte; PC skips it.
    pub fn and_a_imm8(&mut self)
        ensures
            *final(self) == old(self).spec_alu(AluOperation::And, old(self).spec_imm8()).advance_pc(1).add_cycles(8),
    {
        let value = self.get_imm8();
        self.and_a_value(value);
        self.registers.increment_pc();
        self.increment_clock_cycles(8);
    }

    /// AND (HL): A takes A AND the byte at HL.
    pub fn and_a_hl(&mut self)
        ensures
            *final(self) == old(self).spec_alu(AluOperation::And, old(self).spec_at_hl()).add_cycles(8),
    {
        let value = self.get_memory_value_at_hl();
        self.and_a_value(value);
        self.increment_clock_cycles(8);
    }

    /// A takes A AND `value`; Z if the result is 0, H set, N and CY reset.
    pub fn and_a_value(&mut self, value: u8)
        ensures
            *final(self) == old(self).spec_alu(AluOperation::And, value),
    {
        self.registers.a = self.registers.a & value;
        self.registers.flags.set_h_flag(true);
        self.registers.flags.set_z_flag_from_u8(self.registers.a);
        self.registers.flags.n = false;
        self.registers.flags.c = false;
    }

    /// OR r: A takes A OR the source register (bits 2-0).
    pub fn or_a_r(&mut self, opcode: u8)
        ensures
            *final(self) == old(self).spec_alu(AluOperation::Or, old(self).spec_source_value(opcode)).add_cycles(4),
    {
        let source = Cpu::get_source_register(opcode);
        let value = self.registers.get_8bit_register_value(source);
        self.or_a_value(value);
        self.increment_clock_cycles(4);
    }

    /// OR n: A takes A OR the immediate byte; PC skips it.
    pub fn or_a_imm8(&mut self)
        ensures
            *final(self) == old(self).spec_alu(AluOperation::Or, old(self).spec_imm8()).advance_pc(1).add_cycles(8),
    {
        let value = self.get_imm8();
        self.or_a_value(value);
        self.registers.increment_pc();
        self.increment_clock_cycles(8);
    }

    /// OR (HL): A takes A OR the byte at HL.
    pub fn or_a_hl(&mut self)
        ensures
            *final(self) == old(self).spec_alu(AluOperation::Or, old(self).spec_at_hl()).add_cycles(8),
    {
        let value = self.get_memory_value_at_hl();
        self.or_a_value(value);
        self.increment_clock_cycles(8);
    }

    /// A takes A OR `value`; Z if the result is 0, N, H and CY reset.
    pub fn or_a_value(&mut self, value: u8)
        ensures
            *final(self) == old(self).spec_alu(AluOperation::Or, value),
    {
        self.registers.a = self.registers.a | value;
        self.registers.flags.set_h_flag(false);
        self.registers.flags.set_z_flag_from_u8(self.registers.a);
        self.registers.flags.n = false;
        self.registers.flags.c = false;
    }

    /// XOR r: A takes A XOR the source register (bits 2-0).
    pub fn xor_a_r(&mut self, opcode: u8)
        ensures
            *final(self) == old(self).spec_alu(AluOperation::Xor, old(self).spec_source_value(opcode)).add_cycles(4),
    {
        let source = Cpu::get_source_register(opcode);
        let value = self.registers.get_8bit_register_value(source);
        self.xor_a_value(value);
        self.increment_clock_cycles(4);
    }

    /// XOR n: A takes A XOR the immediate byte; PC skips it.
    pub fn xor_a_imm8(&mut self)
        ensures
            *final(self) == old(self).spec_alu(AluOperation::Xor, old(self).spec_imm8()).advance_pc(1).add_cycles(8),
    {
        let value = self.get_imm8();
        self.xor_a_value(value);
        self.registers.increment_pc();
        self.increment_clock_cycles(8);
    }

    /// XOR (HL): A takes A XOR the byte at HL.
    pub fn xor_a_hl(&mut self)
        ensures
            *final(self) == old(self).spec_alu(AluOperation::Xor, old(self).spec_at_hl()).add_cycles(8),
    {
        let value = self.get_memory_value_at_hl();
        self.xor_a_value(value);
        self.increment_clock_cycles(8);
    }

    /// A takes A XOR `value`; Z if the result is 0, N, H and CY reset.
    pub fn xor_a_value(&mut self, value: u8)
        ensures
            *final(self) == old(self).spec_alu(AluOperation::Xor, value),
    {
        self.registers.a = self.registers.a ^ value;
        self.registers.flags.set_h_flag(false);
        self.registers.flags.set_z_flag_from_u8(self.registers.a);
        self.registers.flags.n = false;
        self.registers.flags.c = false;
    }

    /// CP r: compares A with the source register (bits 2-0).
    pub fn cp_a_r(&mut self, opcode: u8)
        ensures
            *final(self) == old(self).spec_alu(AluOperation::Cp, old(self).spec_source_value(opcode)).add_cycles(4),
    {
        let source = Cpu::get_source_register(opcode);
        let value = self.registers.get_8bit_register_value(source);
        self.cp_a_value(value);
        self.increment_clock_cycles(4);
    }

    /// CP n: compares A with the immediate byte; PC skips it.
    pub fn cp_a_imm8(&mut self)
        ensures
            *final(self) == old(self).spec_alu(AluOperation::Cp, old(self).spec_imm8()).advance_pc(1).add_cycles(8),
    {
        let value = self.get_imm8();
        self.cp_a_value(value);
        self.registers.increment_pc();
        self.increment_clock_cycles(8);
    }

    /// CP (HL): compares A with the byte at HL.
    pub fn cp_a_hl(&mut self)
        ensures
            *final(self) == old(self).spec_alu(AluOperation::Cp, old(self).spec_at_hl()).add_cycles(8),
    {
        let value = self.get_memory_value_at_hl();
        self.cp_a_value(value);
        self.increment_clock_cycles(8);
    }

    /// Compares A with `value`: the flags of A - `value`, A unchanged.
    pub fn cp_a_value(&mut self, value: u8)
        ensures
            *final(self) == old(self).spec_alu(AluOperation::Cp, value),
    {
        let result = self.registers.a.wrapping_sub(value);
        let half_carry = FlagsRegister::calculate_h_flag_on_sub(self.registers.a, value);
        let carry = self.registers.a < value;

        self.registers.flags.n = true;
        self.registers.flags.set_c_flag(carry);
        self.registers.flags.set_z_flag_from_u8(result);
        self.registers.flags.set_h_flag(half_carry);
    }

    /// INC r: increments the destination register (bits 5-3).
    pub fn inc_r(&mut self, opcode: u8)
        ensures
            *final(self) == old(self).spec_inc_r(opcode),
    {
        let destination_register = Self::get_destination_register(opcode);
        let value = self.registers.get_8bit_register_value(destination_register);

        let result = value.wrapping_add(1);
        let h_flag = FlagsRegister::calculate_h_flag_on_add(value, 1);
        self.registers.flags.n = false;
        self.registers.flags.set_z_flag_from_u8(result);
        self.registers.flags.set_h_flag(h_flag);

        self.registers.set_8bit_register_value(destination_register, result);
        self.increment_clock_cycles(4);
    }

    /// INC (HL): increments the byte at HL.
    pub fn inc_hl(&mut self)
        ensures
            *final(self) == old(self).spec_inc_hl(),
    {
        let value = self.get_memory_value_at_hl();

        let result = value.wrapping_add(1);
        let h_flag = FlagsRegister::calculate_h_flag_on_add(value, 1);
        self.registers.flags.n = false;
        self.registers.flags.set_z_flag_from_u8(result);
        self.registers.flags.set_h_flag(h_flag);

        self.write_memory_value_at_hl(result);
        self.increment_clock_cycles(8);
    }

    /// DEC r: decrements the destination register (bits 5-3).
    pub fn dec_r(&mut self, opcode: u8)
        ensures
            *final(self) == old(self).spec_dec_r(opcode),
    {
        let destination_register = Self::get_destination_register(opcode);
        let value = self.registers.get_8bit_register_value(destination_register);

        let result = value.wrapping_sub(1);
        let h_flag = FlagsRegister::calculate_h_flag_on_sub(value, 1);
        self.registers.flags.n = true;
        self.registers.flags.set_z_flag_from_u8(result);
        self.registers.flags.set_h_flag(h_flag);

        self.registers.set_8bit_register_value(destination_register, result);
        self.increment_clock_cycles(4);
    }

    /// DEC (HL): decrements the byte at HL.
    pub fn dec_hl(&mut self)
        ensures
            *final(self) == old(self).spec_dec_hl(),
    {
        let value = self.get_memory_value_at_hl();

        let result = value.wrapping_sub(1);
        let h_flag = FlagsRegister::calculate_h_flag_on_sub(value, 1);
        self.registers.flags.n = true;
        self.registers.flags.set_z_flag_from_u8(result);
        self.registers.flags.set_h_flag(h_flag);

        self.write_memory_value_at_hl(result);
        self.increment_clock_cycles(12);
    }
}

} // verus!
