use vstd::prelude::*;

use crate::cpu::{add16, signed, Cpu};
use crate::cpu_components::FlagsRegister;

verus! {

impl Cpu {
    /// ADD HL, rr: HL takes HL + rr (rr = BC, DE, HL, SP by bits 5-4), wrapping; N reset,
    /// H on a carry from bit 11, CY on a carry from bit 15, Z unchanged.
    pub open spec fn spec_add_hl_r16(self, opcode: u8) -> Cpu {
        let value = self.spec_r16((opcode / 16) % 4);
        let hl = self.registers.spec_hl();
        self.set_regs(
            self.registers.with_hl(add16(hl, value as int)).with_flags(
                FlagsRegister {
                    n: false,
                    c: hl + value > 65535,
                    h: FlagsRegister::spec_half_carry_add_u16(hl, value),
                    ..self.registers.flags
                },
            ),
        )
    }

    /// ADD SP, e: SP takes SP + e, e being the immediate byte read as signed (wrapping);
    /// Z and N reset, H and CY from the unsigned addition of the low byte of SP and e;
    /// PC skips the immediate byte.
    pub open spec fn spec_add_sp_imm8(self) -> Cpu {
        let imm8 = self.spec_imm8();
        let lower_sp = self.registers.sp % 256;
        self.set_sp(add16(self.registers.sp, signed(imm8))).set_flags(
            FlagsRegister {
                z: false,
                n: false,
                c: lower_sp + imm8 > 255,
                h: FlagsRegister::spec_half_carry_add(lower_sp as u8, imm8),
            },
        ).advance_pc(1)
    }

    /// INC rr: the 16-bit register of bits 5-4 (BC, DE, HL, SP) is incremented, wrapping.
    pub open spec fn spec_inc_r16(self, opcode: u8) -> Cpu {
        let r = (opcode / 16) % 4;
        self.spec_set_r16(r, add16(self.spec_r16(r), 1))
    }

    /// DEC rr: the 16-bit register of bits 5-4 (BC, DE, HL, SP) is decremented, wrapping.
    pub open spec fn spec_dec_r16(self, opcode: u8) -> Cpu {
        let r = (opcode / 16) % 4;
        self.spec_set_r16(r, add16(self.spec_r16(r), -1))
    }

    /// The value of the 16-bit register with code `register` (BC, DE, HL, SP).
    fn get_r16(&self, register: u8) -> (v: u16)
        requires
            register <= 3,
        ensures
            v == self.spec_r16(register),
    {
        match register {
            0b00 => self.registers.get_bc(),
            0b01 => self.registers.get_de(),
            0b10 => self.registers.get_hl(),
            _ => self.registers.sp,
        }
    }

    /// Writes the 16-bit register with code `register` (BC, DE, HL, SP).
    fn set_r16(&mut self, register: u8, value: u16)
        requires
            register <= 3,
        ensures
            *final(self) == old(self).spec_set_r16(register, value),
    {
        match register {
            0b00 => self.registers.set_bc(value),
            0b01 => self.registers.set_de(value),
            0b10 => self.registers.set_hl(value),
            _ => self.registers.sp = value,
        }
    }

    /// ADD HL, rr: adds BC, DE, HL or SP (bits 5-4) to HL.
    /// Example: HL = 0x8A23, BC = 0x0605: ADD HL, BC gives HL = 0x9028, H = 1, N = 0, CY = 0.
    pub fn add_hl_r16(&mut self, opcode: u8)
        ensures
            *final(self) == old(self).spec_add_hl_r16(opcode),
    {
        let source_register = Self::get_16bit_destination_register(opcode);
        let value = self.get_r16(source_register);

        let hl = self.registers.get_hl();
        let carry = (hl as u32) + (value as u32) > 0xFFFF;
        let result = hl.wrapping_add(value);
        let h_flag = FlagsRegister::calculate_h_flag_on_add_u16_numbers(hl, value);

        self.registers.set_hl(result);
        self.registers.flags.n = false;
        self.registers.flags.set_c_flag(carry);
        self.registers.flags.set_h_flag(h_flag);
    }

    /// ADD SP, e: adds the signed immediate byte to SP.
    pub fn add_sp_imm8(&mut self)
        ensures
            *final(self) == old(self).spec_add_sp_imm8(),
    {
        let imm8 = self.get_imm8();
        let sp_val = self.registers.sp;

        let lower_sp = (sp_val % 256) as u8;
        let c_carry = (lower_sp as u16) + (imm8 as u16) > 0xFF;
        let h_carry = FlagsRegister::calculate_h_flag_on_add(lower_sp, imm8);

        // The offset sign-extended to 16 bits: 0x00nn for 0-127, 0xFFnn for -128 to -1.
        let offset_u16: u16 = if imm8 < 128 {
            imm8 as u16
        } else {
            imm8 as u16 + 0xFF00
        };
        let result = sp_val.wrapping_add(offset_u16);

        self.registers.sp = result;
        self.registers.flags.n = false;
        self.registers.flags.z = false;
        self.registers.flags.set_c_flag(c_carry);
        self.registers.flags.set_h_flag(h_carry);
        self.registers.increment_pc();
    }

    /// INC rr: increments BC, DE, HL or SP (bits 5-4).
    pub fn inc_r16(&mut self, opcode: u8)
        ensures
            *final(self) == old(self).spec_inc_r16(opcode),
    {
        let source_register = Self::get_16bit_destination_register(opcode);
        let value = self.get_r16(source_register);
        let result = value.wrapping_add(1);
        self.set_r16(source_register, result);
    }

    /// DEC rr: decrements BC, DE, HL or SP (bits 5-4).
    pub fn dec_r16(&mut self, opcode: u8)
        ensures
            *final(self) == old(self).spec_dec_r16(opcode),
    {
        let source_register = Self::get_16bit_destination_register(opcode);
        let value = self.get_r16(source_register);
        let result = value.wrapping_sub(1);
        self.set_r16(source_register, result);
    }
}

} // verus!
