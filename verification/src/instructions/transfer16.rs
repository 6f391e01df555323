use vstd::prelude::*;

use crate::bits::{hi_byte, lemma_split_word, lo_byte};
use crate::cpu::{add16, signed, Cpu};
use crate::cpu_components::{FlagsRegister, MemoryBus};
use crate::instructions::helpers::CpuAddOperation;

verus! {

broadcast use MemoryBus::lemma_view_len, MemoryBus::lemma_spec_write;

impl Cpu {
    /// LD rr, nn: BC, DE, HL or SP (bits 5-4) takes the 16-bit immediate; PC skips it.
    pub open spec fn spec_ld_r16_imm16(self, opcode: u8) -> Cpu {
        self.spec_set_r16((opcode / 16) % 4, self.spec_imm16()).advance_pc(2)
    }

    /// The value PUSH rr pushes: BC, DE, HL or AF (bits 5-4).
    pub open spec fn spec_stack_r16(self, opcode: u8) -> u16 {
        let r = (opcode / 16) % 4;
        if r == 3 {
            self.registers.spec_af()
        } else {
            self.spec_r16(r)
        }
    }

    /// POP rr: BC, DE, HL or AF (bits 5-4) takes the top of the stack; SP is incremented by 2.
    pub open spec fn spec_pop_r16(self, opcode: u8) -> Cpu {
        let value = self.spec_top_of_stack();
        let popped = self.spec_pop();
        let r = (opcode / 16) % 4;
        if r == 3 {
            popped.set_regs(popped.registers.with_af(value))
        } else {
            popped.spec_set_r16(r, value)
        }
    }

    /// LD HL, SP+e: HL takes SP + e, e being the immediate byte read as signed (wrapping);
    /// Z and N reset, H and CY from the unsigned addition of the low byte of SP and e;
    /// PC skips the immediate byte.
    pub open spec fn spec_ld_hl_sp_imm8(self) -> Cpu {
        let imm8 = self.spec_imm8();
        let lower_sp = self.registers.sp % 256;
        self.set_hl(add16(self.registers.sp, signed(imm8))).set_flags(
            FlagsRegister {
                z: false,
                n: false,
                c: lower_sp + imm8 > 255,
                h: FlagsRegister::spec_half_carry_add(lower_sp as u8, imm8),
            },
        ).advance_pc(1)
    }

    /// LD (nn), SP: the low byte of SP is stored at nn and the high byte at nn + 1;
    /// PC skips the two immediate bytes.
    pub open spec fn spec_ld_imm16_sp(self) -> Cpu {
        let address = self.spec_imm16();
        self.set_mem(address, lo_byte(self.registers.sp)).set_mem(
            (address + 1) as u16,
            hi_byte(self.registers.sp),
        ).advance_pc(2)
    }

    /// LD rr, nn: loads the 16-bit immediate into BC, DE, HL or SP (bits 5-4).
    pub fn ld_r16_imm16(&mut self, opcode: u8)
        requires
            old(self).registers.pc < 0xFFFF,
        ensures
            *final(self) == old(self).spec_ld_r16_imm16(opcode),
    {
        let destination_register = Self::get_16bit_destination_register(opcode);
        let value = self.get_imm16();

        match destination_register {
            0b00 => self.registers.set_bc(value),
            0b01 => self.registers.set_de(value),
            0b10 => self.registers.set_hl(value),
            _ => self.registers.sp = value,
        };
        self.registers.increment_pc_twice();
    }

    /// LD SP, HL: loads HL into SP.
    pub fn ld_sp_hl(&mut self)
        ensures
            *final(self) == old(self).set_sp(old(self).registers.spec_hl()),
    {
        self.registers.sp = self.registers.get_hl();
    }

    /// PUSH rr: pushes BC, DE, HL or AF (bits 5-4) onto the stack; SP is decremented by 2.
    pub fn push_r16_onto_memory_stack(&mut self, opcode: u8)
        ensures
            *final(self) == old(self).spec_push(old(self).spec_stack_r16(opcode)),
    {
        let source_register = Self::get_16bit_destination_register(opcode);
        let value = match source_register {
            0b00 => self.registers.get_bc(),
            0b01 => self.registers.get_de(),
            0b10 => self.registers.get_hl(),
            _ => self.registers.get_af(),
        };
        self.push_value_to_sp(value);
    }

    /// POP rr: pops the top of the stack into BC, DE, HL or AF (bits 5-4): the byte at SP goes
    /// to the low register and the byte at SP + 1 to the high one; SP is incremented by 2.
    pub fn pop_r16_from_memory_stack(&mut self, opcode: u8)
        ensures
            *final(self) == old(self).spec_pop_r16(opcode),
    {
        let value = self.pop_value_from_sp();

        let destination_register = Self::get_16bit_destination_register(opcode);
        match destination_register {
            0b00 => self.registers.set_bc(value),
            0b01 => self.registers.set_de(value),
            0b10 => self.registers.set_hl(value),
            _ => self.registers.set_af(value),
        }
    }

    /// LD HL, SP+e: adds the signed immediate byte to SP and stores the result in HL.
    pub fn ld_hl_sp_imm8(&mut self)
        ensures
            *final(self) == old(self).spec_ld_hl_sp_imm8(),
    {
        let imm8 = self.get_imm8();
        let sp = self.registers.sp;
        let (result, c_flag, h_flag) = sp.add_u8_as_signed(imm8);
        self.registers.set_hl(result);
        self.registers.flags.n = false;
        self.registers.flags.z = false;
        self.registers.flags.set_c_flag(c_flag);
        self.registers.flags.set_h_flag(h_flag);
        self.registers.increment_pc();
    }

    /// LD (nn), SP: stores the low byte of SP at nn and the high byte at nn + 1.
    pub fn ld_imm16_sp(&mut self)
        requires
            old(self).registers.pc < 0xFFFF,
            old(self).spec_imm16() < 0xFFFF,
        ensures
            *final(self) == old(self).spec_ld_imm16_sp(),
    {
        let imm16 = self.get_imm16();
        proof {
            lemma_split_word(self.registers.sp);
        }
        let sp_lower_byte = (self.registers.sp & 0x1FFu16) as u8;
        self.memory_bus.write_byte(imm16, sp_lower_byte);

        let sp_higher_byte = (self.registers.sp >> 8u16) as u8;
        self.memory_bus.write_byte(imm16 + 1, sp_higher_byte);

        self.registers.increment_pc_twice();
    }
}

} // verus!
