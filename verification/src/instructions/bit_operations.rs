use vstd::prelude::*;

use crate::bits::{bit_of, lemma_single_bit, with_bit_cleared, with_bit_set};
use crate::cpu::Cpu;
use crate::cpu_components::{FlagsRegister, MemoryBus};

verus! {

broadcast use MemoryBus::lemma_view_len, MemoryBus::lemma_spec_write;

impl Cpu {
    /// The bit index of a BIT, SET or RES opcode: bits 5-3.
    pub open spec fn spec_bit_index(cb_opcode: u8) -> u8 {
        (cb_opcode / 8) % 8
    }

    /// The flags after BIT b on `value`: Z set if bit b is 0, N reset, H set, C unchanged.
    pub open spec fn spec_bit_flags(self, value: u8, cb_opcode: u8) -> FlagsRegister {
        FlagsRegister {
            z: !bit_of(value, Self::spec_bit_index(cb_opcode)),
            n: false,
            h: true,
            ..self.registers.flags
        }
    }

    /// BIT b, r: tests bit b (bits 5-3) of the register in bits 2-0. Z is set if the bit is 0,
    /// H is set and N reset; the register is unchanged.
    /// Example: B = 0x80: BIT 7, B gives Z = 0, H = 1, N = 0.
    pub fn bit_b_r8(&mut self, cb_opcode: u8)
        ensures
            *final(self) == old(self).set_flags(
                old(self).spec_bit_flags(
                    old(self).registers.spec_get_8bit(cb_opcode % 8),
                    cb_opcode,
                ),
            ),
    {
        let bit_index = Cpu::get_destination_register(cb_opcode);
        let register = Cpu::get_source_register(cb_opcode);
        let value = self.registers.get_8bit_register_value(register);
        proof {
            lemma_single_bit(value, bit_index);
        }
        let bit = (value >> bit_index) & 1u8;

        self.registers.flags.set_z_flag(bit == 0);
        self.registers.flags.set_h_flag(true);
        self.registers.flags.set_n_flag(false);
    }

    /// BIT b, (HL): tests bit b (bits 5-3) of the byte at HL. Z is set if the bit is 0, H is
    /// set and N reset; memory is unchanged.
    pub fn bit_b_hl(&mut self, cb_opcode: u8)
        ensures
            *final(self) == old(self).set_flags(
                old(self).spec_bit_flags(old(self).spec_at_hl(), cb_opcode),
            ),
    {
        let bit_index = Cpu::get_destination_register(cb_opcode);
        let value = self.memory_bus.read_byte(self.registers.get_hl());
        proof {
            lemma_single_bit(value, bit_index);
        }
        let bit = (value >> bit_index) & 1u8;

        self.registers.flags.set_z_flag(bit == 0);
        self.registers.flags.set_h_flag(true);
        self.registers.flags.set_n_flag(false);
    }

    /// SET b, r: sets bit b (bits 5-3) of the register in bits 2-0; flags are unchanged.
    /// Example: E = 0x80: SET 3, E gives E = 0x88.
    pub fn set_b_r8(&mut self, cb_opcode: u8)
        ensures
            *final(self) == old(self).set_regs(
                old(self).registers.spec_set_8bit(
                    cb_opcode % 8,
                    with_bit_set(
                        old(self).registers.spec_get_8bit(cb_opcode % 8),
                        Self::spec_bit_index(cb_opcode),
                    ),
                ),
            ),
    {
        let bit_index = Cpu::get_destination_register(cb_opcode);
        let register = Cpu::get_source_register(cb_opcode);
        let value = self.registers.get_8bit_register_value(register);
        let new_value = value | (1u8 << bit_index);
        self.registers.set_8bit_register_value(register, new_value);
    }

    /// SET b, (HL): sets bit b (bits 5-3) of the byte at HL; flags are unchanged.
    pub fn set_b_hl(&mut self, cb_opcode: u8)
        ensures
            *final(self) == old(self).set_mem(
                old(self).registers.spec_hl(),
                with_bit_set(old(self).spec_at_hl(), Self::spec_bit_index(cb_opcode)),
            ),
    {
        let bit_index = Cpu::get_destination_register(cb_opcode);
        let hl = self.registers.get_hl();
        let value = self.memory_bus.read_byte(hl);
        let new_value = value | (1u8 << bit_index);
        self.memory_bus.write_byte(hl, new_value);
    }

    /// RES b, r: resets bit b (bits 5-3) of the register in bits 2-0; flags are unchanged.
    /// Example: E = 0x88: RES 3, E gives E = 0x80.
    pub fn reset_b_r8(&mut self, cb_opcode: u8)
        ensures
            *final(self) == old(self).set_regs(
                old(self).registers.spec_set_8bit(
                    cb_opcode % 8,
                    with_bit_cleared(
                        old(self).registers.spec_get_8bit(cb_opcode % 8),
                        Self::spec_bit_index(cb_opcode),
                    ),
                ),
            ),
    {
        let bit_index = Cpu::get_destination_register(cb_opcode);
        let register = Cpu::get_source_register(cb_opcode);
        let value = self.registers.get_8bit_register_value(register);
        let new_value = value & !(1u8 << bit_index);
        self.registers.set_8bit_register_value(register, new_value);
    }

    /// RES b, (HL): resets bit b (bits 5-3) of the byte at HL; flags are unchanged.
    pub fn reset_b_hl(&mut self, cb_opcode: u8)
        ensures
            *final(self) == old(self).set_mem(
                old(self).registers.spec_hl(),
                with_bit_cleared(old(self).spec_at_hl(), Self::spec_bit_index(cb_opcode)),
            ),
    {
        let bit_index = Cpu::get_destination_register(cb_opcode);
        let hl = self.registers.get_hl();
        let value = self.memory_bus.read_byte(hl);
        let new_value = value & !(1u8 << bit_index);
        self.memory_bus.write_byte(hl, new_value);
    }
}

} // verus!
