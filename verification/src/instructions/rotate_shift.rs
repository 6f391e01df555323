use vstd::prelude::*;

use crate::bits::{
    lemma_shift_u16,
    lemma_shift_left, lemma_shift_left_or_one, lemma_shift_right, lemma_shift_right_keep_top,
    lemma_shift_right_or_top, lemma_swap_nibbles,
};
use crate::cpu::Cpu;
use crate::cpu_components::{FlagsRegister, MemoryBus};

verus! {

broadcast use MemoryBus::lemma_view_len, MemoryBus::lemma_spec_write;

/// The rotate and shift operations of the CB-prefixed opcodes, in the order of bits 5-3 of
/// those opcodes.
pub enum ShiftOperation {
    Rlc,
    Rrc,
    Rl,
    Rr,
    Sla,
    Sra,
    Swap,
    Srl,
}

/// The rotate or shift operation with the given code (bits 5-3 of a CB-prefixed opcode).
pub open spec fn shift_operation_of(code: int) -> ShiftOperation {
    if code == 0 {
        ShiftOperation::Rlc
    } else if code == 1 {
        ShiftOperation::Rrc
    } else if code == 2 {
        ShiftOperation::Rl
    } else if code == 3 {
        ShiftOperation::Rr
    } else if code == 4 {
        ShiftOperation::Sla
    } else if code == 5 {
        ShiftOperation::Sra
    } else if code == 6 {
        ShiftOperation::Swap
    } else {
        ShiftOperation::Srl
    }
}

/// The result of a rotate or shift of `value`; `carry` is the C flag before the operation.
/// RLC/RRC rotate the byte, RL/RR rotate it through the carry, SLA shifts left with bit 0 reset,
/// SRA shifts right keeping bit 7, SRL shifts right with bit 7 reset, SWAP exchanges the nibbles.
pub open spec fn spec_shift_result(operation: ShiftOperation, value: u8, carry: bool) -> u8 {
    let c: int = if carry {
        1
    } else {
        0
    };
    match operation {
        ShiftOperation::Rlc => ((value * 2) % 256 + value / 128) as u8,
        ShiftOperation::Rl => ((value * 2) % 256 + c) as u8,
        ShiftOperation::Rrc => (value / 2 + (value % 2) * 128) as u8,
        ShiftOperation::Rr => (value / 2 + c * 128) as u8,
        ShiftOperation::Sla => ((value * 2) % 256) as u8,
        ShiftOperation::Sra => (value / 2 + (value / 128) * 128) as u8,
        ShiftOperation::Srl => (value / 2) as u8,
        ShiftOperation::Swap => ((value % 16) * 16 + value / 16) as u8,
    }
}

/// The C flag after a rotate or shift of `value`: the bit shifted out (bit 7 for the left
/// operations, bit 0 for the right ones); SWAP resets it.
pub open spec fn spec_shift_carry(operation: ShiftOperation, value: u8) -> bool {
    match operation {
        ShiftOperation::Rlc | ShiftOperation::Rl | ShiftOperation::Sla => value >= 128,
        ShiftOperation::Rrc | ShiftOperation::Rr | ShiftOperation::Sra | ShiftOperation::Srl =>
            value % 2 == 1,
        ShiftOperation::Swap => false,
    }
}

/// The flags after a CB-prefixed rotate or shift of `value`: Z if the result is 0, N and H
/// reset, C as `spec_shift_carry`.
pub open spec fn spec_shift_flags(operation: ShiftOperation, value: u8, carry: bool) -> FlagsRegister {
    FlagsRegister {
        z: spec_shift_result(operation, value, carry) == 0,
        n: false,
        h: false,
        c: spec_shift_carry(operation, value),
    }
}

impl Cpu {
    /// A rotate of register A (RLCA, RLA, RRCA, RRA): Z, N and H reset, C as the bit shifted
    /// out; 4 cycles.
    pub open spec fn spec_rotate_a(self, operation: ShiftOperation) -> Cpu {
        let value = self.registers.a;
        self.set_a(spec_shift_result(operation, value, self.registers.flags.c)).set_flags(
            FlagsRegister {
                z: false,
                n: false,
                h: false,
                c: spec_shift_carry(operation, value),
            },
        ).add_cycles(4)
    }

    /// A CB-prefixed rotate or shift of the register in bits 2-0 of `opcode`; 8 cycles.
    pub open spec fn spec_shift_r8(self, operation: ShiftOperation, opcode: u8) -> Cpu {
        let r = opcode % 8;
        let value = self.registers.spec_get_8bit(r);
        let c = self.registers.flags.c;
        self.set_regs(
            self.registers.with_flags(spec_shift_flags(operation, value, c)).spec_set_8bit(
                r,
                spec_shift_result(operation, value, c),
            ),
        ).add_cycles(8)
    }

    /// A CB-prefixed rotate or shift of the byte at HL; 16 cycles.
    pub open spec fn spec_shift_hl(self, operation: ShiftOperation) -> Cpu {
        let value = self.spec_at_hl();
        let c = self.registers.flags.c;
        self.set_flags(spec_shift_flags(operation, value, c)).set_mem(
            self.registers.spec_hl(),
            spec_shift_result(operation, value, c),
        ).add_cycles(16)
    }

    /// Rotates a byte to the left and updates the flags: C receives bit 7, N and H are reset,
    /// Z is set from the result when `set_z_flag` holds and reset otherwise. Bit 0 receives the
    /// previous C flag when `rotate_through_c_flag` holds, else bit 7.
    pub fn rotate_left_and_update_flags(
        &mut self,
        value: u8,
        rotate_through_c_flag: bool,
        set_z_flag: bool,
    ) -> (r: u8)
        ensures
            r == spec_shift_result(
                if rotate_through_c_flag {
                    ShiftOperation::Rl
                } else {
                    ShiftOperation::Rlc
                },
                value,
                old(self).registers.flags.c,
            ),
            *final(self) == old(self).set_flags(
                FlagsRegister { z: set_z_flag && r == 0, n: false, h: false, c: value >= 128 },
            ),
    {
        proof {
            lemma_shift_right(value);
            lemma_shift_left(value);
            lemma_shift_left_or_one(value);
        }
        let bit7 = value >> 7u8;
        let mut rotated = value << 1u8;

        if rotate_through_c_flag {
            if self.registers.flags.c {
                rotated = rotated | 1u8;
            }
        } else if bit7 == 1 {
            rotated = rotated | 1u8;
        }

        self.registers.flags.set_c_flag(bit7 == 1);
        self.registers.flags.set_n_flag(false);
        self.registers.flags.set_h_flag(false);

        // The CB-prefixed rotations set Z from the result; RLCA and RLA reset it.
        if set_z_flag {
            self.registers.flags.set_z_flag_from_u8(rotated);
        } else {
            self.registers.flags.set_z_flag(false);
        }
        rotated
    }

    /// Rotates a byte to the right and updates the flags: C receives bit 0, N and H are reset,
    /// Z is set from the result when `set_z_flag` holds and reset otherwise. Bit 7 receives the
    /// previous C flag when `rotate_through_c_flag` holds, else bit 0.
    pub fn rotate_right_and_update_flags(
        &mut self,
        value: u8,
        rotate_through_c_flag: bool,
        set_z_flag: bool,
    ) -> (r: u8)
        ensures
            r == spec_shift_result(
                if rotate_through_c_flag {
                    ShiftOperation::Rr
                } else {
                    ShiftOperation::Rrc
                },
                value,
                old(self).registers.flags.c,
            ),
            *final(self) == old(self).set_flags(
                FlagsRegister { z: set_z_flag && r == 0, n: false, h: false, c: value % 2 == 1 },
            ),
    {
        proof {
            lemma_shift_right(value);
            lemma_shift_right_or_top(value);
        }
        let bit0 = value & 1u8;
        let mut rotated = value >> 1u8;

        if rotate_through_c_flag {
            if self.registers.flags.c {
                rotated = rotated | 0x80u8;
            }
        } else if bit0 == 1 {
            rotated = rotated | 0x80u8;
        }

        self.registers.flags.set_c_flag(bit0 == 1);
        self.registers.flags.set_n_flag(false);
        self.registers.flags.set_h_flag(false);

        // The CB-prefixed rotations set Z from the result; RRCA and RRA reset it.
        if set_z_flag {
            self.registers.flags.set_z_flag_from_u8(rotated);
        } else {
            self.registers.flags.set_z_flag(false);
        }
        rotated
    }

    /// RLCA: rotates A to the left; bit 7 goes to both C and bit 0.
    /// Example: A = 0x85: RLCA gives A = 0x0B, CY = 1, Z = 0.
    pub fn rlca(&mut self)
        ensures
            *final(self) == old(self).spec_rotate_a(ShiftOperation::Rlc),
    {
        let rotated = self.rotate_left_and_update_flags(self.registers.a, false, false);
        self.registers.a = rotated;
        self.increment_clock_cycles(4);
    }

    /// RLA: rotates A to the left through the carry; the previous C goes to bit 0.
    pub fn rla(&mut self)
        ensures
            *final(self) == old(self).spec_rotate_a(ShiftOperation::Rl),
    {
        let rotated = self.rotate_left_and_update_flags(self.registers.a, true, false);
        self.registers.a = rotated;
        self.increment_clock_cycles(4);
    }

    /// RRCA: rotates A to the right; bit 0 goes to both C and bit 7.
    pub fn rrca(&mut self)
        ensures
            *final(self) == old(self).spec_rotate_a(ShiftOperation::Rrc),
    {
        let rotated = self.rotate_right_and_update_flags(self.registers.a, false, false);
        self.registers.a = rotated;
        self.increment_clock_cycles(4);
    }

    /// RRA: rotates A to the right through the carry; the previous C goes to bit 7.
    pub fn rra(&mut self)
        ensures
            *final(self) == old(self).spec_rotate_a(ShiftOperation::Rr),
    {
        let rotated = self.rotate_right_and_update_flags(self.registers.a, true, false);
        self.registers.a = rotated;
        self.increment_clock_cycles(4);
    }

    /// RLC r: rotates the register in bits 2-0 to the left; bit 7 goes to both C and bit 0.
    /// Example: B = 0x85: RLC B gives B = 0x0B, CY = 1, Z = 0.
    pub fn rlc_r8(&mut self, cb_opcode: u8)
        ensures
            *final(self) == old(self).spec_shift_r8(ShiftOperation::Rlc, cb_opcode),
    {
        let register = Cpu::get_source_register(cb_opcode);
        let value = self.registers.get_8bit_register_value(register);
        let rotated = self.rotate_left_and_update_flags(value, false, true);
        self.registers.set_8bit_register_value(register, rotated);
        self.increment_clock_cycles(8);
    }

    /// RLC (HL): rotates the byte at HL to the left; bit 7 goes to both C and bit 0.
    pub fn rlc_hl(&mut self)
        ensures
            *final(self) == old(self).spec_shift_hl(ShiftOperation::Rlc),
    {
        let hl = self.registers.get_hl();
        let value = self.memory_bus.read_byte(hl);
        let rotated = self.rotate_left_and_update_flags(value, false, true);
        self.memory_bus.write_byte(hl, rotated);
        self.increment_clock_cycles(16);
    }

    /// RL r: rotates the register in bits 2-0 to the left through the carry.
    pub fn rl_r8(&mut self, cb_opcode: u8)
        ensures
            *final(self) == old(self).spec_shift_r8(ShiftOperation::Rl, cb_opcode),
    {
        let register = Cpu::get_source_register(cb_opcode);
        let value = self.registers.get_8bit_register_value(register);
        let rotated = self.rotate_left_and_update_flags(value, true, true);
        self.registers.set_8bit_register_value(register, rotated);
        self.increment_clock_cycles(8);
    }

    /// RL (HL): rotates the byte at HL to the left through the carry.
    pub fn rl_hl(&mut self)
        ensures
            *final(self) == old(self).spec_shift_hl(ShiftOperation::Rl),
    {
        let hl = self.registers.get_hl();
        let value = self.memory_bus.read_byte(hl);
        let rotated = self.rotate_left_and_update_flags(value, true, true);
        self.memory_bus.write_byte(hl, rotated);
        self.increment_clock_cycles(16);
    }

    /// RRC r: rotates the register in bits 2-0 to the right; bit 0 goes to both C and bit 7.
    /// Example: C = 0x01: RRC C gives C = 0x80, CY = 1, Z = 0.
    pub fn rrc_r8(&mut self, cb_opcode: u8)
        ensures
            *final(self) == old(self).spec_shift_r8(ShiftOperation::Rrc, cb_opcode),
    {
        let register = Cpu::get_source_register(cb_opcode);
        let value = self.registers.get_8bit_register_value(register);
        let rotated = self.rotate_right_and_update_flags(value, false, true);
        self.registers.set_8bit_register_value(register, rotated);
        self.increment_clock_cycles(8);
    }

    /// RRC (HL): rotates the byte at HL to the right; bit 0 goes to both C and bit 7.
    pub fn rrc_hl(&mut self)
        ensures
            *final(self) == old(self).spec_shift_hl(ShiftOperation::Rrc),
    {
        let hl = self.registers.get_hl();
        let value = self.memory_bus.read_byte(hl);
        let rotated = self.rotate_right_and_update_flags(value, false, true);
        self.memory_bus.write_byte(hl, rotated);
        self.increment_clock_cycles(16);
    }

    /// RR r: rotates the register in bits 2-0 to the right through the carry.
    pub fn rr_r8(&mut self, cb_opcode: u8)
        ensures
            *final(self) == old(self).spec_shift_r8(ShiftOperation::Rr, cb_opcode),
    {
        let register = Cpu::get_source_register(cb_opcode);
        let value = self.registers.get_8bit_register_value(register);
        let rotated = self.rotate_right_and_update_flags(value, true, true);
        self.registers.set_8bit_register_value(register, rotated);
        self.increment_clock_cycles(8);
    }

    /// RR (HL): rotates the byte at HL to the right through the carry.
    pub fn rr_hl(&mut self)
        ensures
            *final(self) == old(self).spec_shift_hl(ShiftOperation::Rr),
    {
        let hl = self.registers.get_hl();
        let value = self.memory_bus.read_byte(hl);
        let rotated = self.rotate_right_and_update_flags(value, true, true);
        self.memory_bus.write_byte(hl, rotated);
        self.increment_clock_cycles(16);
    }

    /// SLA r: shifts the register in bits 2-0 to the left; bit 7 goes to C and bit 0 is reset.
    pub fn sla_r8(&mut self, cb_opcode: u8)
        ensures
            *final(self) == old(self).spec_shift_r8(ShiftOperation::Sla, cb_opcode),
    {
        let register = Cpu::get_source_register(cb_opcode);
        let value = self.registers.get_8bit_register_value(register);
        proof {
            lemma_shift_right(value);
            lemma_shift_left(value);
        }
        let bit7 = value >> 7u8;
        let shifted = value << 1u8;

        self.registers.flags.set_c_flag(bit7 == 1);
        self.registers.flags.set_z_flag_from_u8(shifted);
        self.registers.flags.set_n_flag(false);
        self.registers.flags.set_h_flag(false);
        self.registers.set_8bit_register_value(register, shifted);
        self.increment_clock_cycles(8);
    }

    /// SLA (HL): shifts the byte at HL to the left; bit 7 goes to C and bit 0 is reset.
    pub fn sla_hl(&mut self)
        ensures
            *final(self) == old(self).spec_shift_hl(ShiftOperation::Sla),
    {
        let hl = self.registers.get_hl();
        let value = self.memory_bus.read_byte(hl);
        proof {
            lemma_shift_right(value);
            lemma_shift_left(value);
        }
        let bit7 = value >> 7u8;
        let shifted = value << 1u8;

        self.registers.flags.set_c_flag(bit7 == 1);
        self.registers.flags.set_z_flag_from_u8(shifted);
        self.registers.flags.set_n_flag(false);
        self.registers.flags.set_h_flag(false);
        self.memory_bus.write_byte(hl, shifted);
        self.increment_clock_cycles(16);
    }

    /// SRA r: shifts the register in bits 2-0 to the right; bit 0 goes to C and bit 7 is kept.
    pub fn sra_r8(&mut self, cb_opcode: u8)
        ensures
            *final(self) == old(self).spec_shift_r8(ShiftOperation::Sra, cb_opcode),
    {
        let register = Cpu::get_source_register(cb_opcode);
        let value = self.registers.get_8bit_register_value(register);
        proof {
            lemma_shift_right(value);
            lemma_shift_right_keep_top(value);
        }
        let bit7 = value & 0x80u8;
        let bit0 = value & 1u8;
        let shifted = (value >> 1u8) | bit7;

        self.registers.flags.set_c_flag(bit0 == 1);
        self.registers.flags.set_z_flag_from_u8(shifted);
        self.registers.flags.set_n_flag(false);
        self.registers.flags.set_h_flag(false);
        self.registers.set_8bit_register_value(register, shifted);
        self.increment_clock_cycles(8);
    }

    /// SRA (HL): shifts the byte at HL to the right; bit 0 goes to C and bit 7 is kept.
    pub fn sra_hl(&mut self)
        ensures
            *final(self) == old(self).spec_shift_hl(ShiftOperation::Sra),
    {
        let hl = self.registers.get_hl();
        let value = self.memory_bus.read_byte(hl);
        proof {
            lemma_shift_right(value);
            lemma_shift_right_keep_top(value);
        }
        let bit7 = value & 0x80u8;
        let bit0 = value & 1u8;
        let shifted = (value >> 1u8) | bit7;

        self.registers.flags.set_c_flag(bit0 == 1);
        self.registers.flags.set_z_flag_from_u8(shifted);
        self.registers.flags.set_n_flag(false);
        self.registers.flags.set_h_flag(false);
        self.memory_bus.write_byte(hl, shifted);
        self.increment_clock_cycles(16);
    }

    /// SRL r: shifts the register in bits 2-0 to the right; bit 0 goes to C and bit 7 is reset.
    pub fn srl_r8(&mut self, cb_opcode: u8)
        ensures
            *final(self) == old(self).spec_shift_r8(ShiftOperation::Srl, cb_opcode),
    {
        let register = Cpu::get_source_register(cb_opcode);
        let value = self.registers.get_8bit_register_value(register);
        proof {
            lemma_shift_right(value);
        }
        let bit0 = value & 1u8;
        let shifted = value >> 1u8;

        self.registers.flags.set_c_flag(bit0 == 1);
        self.registers.flags.set_z_flag_from_u8(shifted);
        self.registers.flags.set_n_flag(false);
        self.registers.flags.set_h_flag(false);
        self.registers.set_8bit_register_value(register, shifted);
        self.increment_clock_cycles(8);
    }

    /// SRL (HL): shifts the byte at HL to the right; bit 0 goes to C and bit 7 is reset.
    pub fn srl_hl(&mut self)
        ensures
            *final(self) == old(self).spec_shift_hl(ShiftOperation::Srl),
    {
        let hl = self.registers.get_hl();
        let value = self.memory_bus.read_byte(hl);
        proof {
            lemma_shift_right(value);
        }
        let bit0 = value & 1u8;
        let shifted = value >> 1u8;

        self.registers.flags.set_c_flag(bit0 == 1);
        self.registers.flags.set_z_flag_from_u8(shifted);
        self.registers.flags.set_n_flag(false);
        self.registers.flags.set_h_flag(false);
        self.memory_bus.write_byte(hl, shifted);
        self.increment_clock_cycles(16);
    }

    /// SWAP r: exchanges the high and low nibbles of the register in bits 2-0; C is reset.
    pub fn swap_r8(&mut self, cb_opcode: u8)
        ensures
            *final(self) == old(self).spec_shift_r8(ShiftOperation::Swap, cb_opcode),
    {
        let register = Cpu::get_source_register(cb_opcode);
        let value = self.registers.get_8bit_register_value(register);
        proof {
            lemma_swap_nibbles(value);
        }
        let shifted = ((value & 0xF0u8) >> 4u8) | ((value & 0x0Fu8) << 4u8);

        self.registers.flags.set_c_flag(false);
        self.registers.flags.set_z_flag_from_u8(shifted);
        self.registers.flags.set_n_flag(false);
        self.registers.flags.set_h_flag(false);
        self.registers.set_8bit_register_value(register, shifted);
        self.increment_clock_cycles(8);
    }

    /// SWAP (HL): exchanges the high and low nibbles of the byte at HL; C is reset.
    pub fn swap_hl(&mut self)
        ensures
            *final(self) == old(self).spec_shift_hl(ShiftOperation::Swap),
    {
        let hl = self.registers.get_hl();
        let value = self.memory_bus.read_byte(hl);
        proof {
            lemma_swap_nibbles(value);
        }
        let shifted = ((value & 0xF0u8) >> 4u8) | ((value & 0x0Fu8) << 4u8);

        self.registers.flags.set_c_flag(false);
        self.registers.flags.set_z_flag_from_u8(shifted);
        self.registers.flags.set_n_flag(false);
        self.registers.flags.set_h_flag(false);
        self.memory_bus.write_byte(hl, shifted);
        self.increment_clock_cycles(16);
    }

    /// Shifts a 16-bit value left by one position and updates the flags: C is set when the
    /// value shifted right by seven positions is 1 (values 0x80-0xFF), Z from the result, N and
    /// H reset.
    pub fn rotate_left_and_update_flags_u16(&mut self, value: u16) -> (r: u16)
        ensures
            r == ((value * 2) % 65536) as u16,
            *final(self) == old(self).set_flags(
                FlagsRegister { c: value / 128 == 1, z: r == 0, n: false, h: false },
            ),
    {
        proof {
            lemma_shift_u16(value);
        }
        let bit7 = value >> 7u16;
        let shifted = value << 1u16;
        self.registers.flags.set_c_flag(bit7 == 1);
        self.registers.flags.set_z_flag_from_u16(shifted);
        self.registers.flags.set_n_flag(false);
        self.registers.flags.set_h_flag(false);
        shifted
    }
}

} // verus!
