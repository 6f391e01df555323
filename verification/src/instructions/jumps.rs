use vstd::prelude::*;

use crate::bits::lemma_opcode_fields;
use crate::cpu::{add16, signed, Cpu};
use crate::cpu_components::MemoryBus;

verus! {

broadcast use MemoryBus::lemma_view_len, MemoryBus::lemma_spec_write;

impl Cpu {
    /// The condition of a JR cc opcode, in bits 4-3: 0 NZ, 1 Z, 2 NC, 3 C.
    pub open spec fn spec_jr_condition(self, opcode: u8) -> bool {
        let cc = (opcode / 8) % 4;
        if cc == 0 {
            !self.registers.flags.z
        } else if cc == 1 {
            self.registers.flags.z
        } else if cc == 2 {
            !self.registers.flags.c
        } else {
            self.registers.flags.c
        }
    }

    /// JP nn: PC takes the 16-bit immediate; 16 cycles.
    pub open spec fn spec_jp_imm16(self) -> Cpu {
        self.set_pc(self.spec_imm16()).add_cycles(16)
    }

    /// JR e: PC moves past the offset byte and then by the offset read as signed (wrapping);
    /// 12 cycles.
    pub open spec fn spec_jr_imm8(self) -> Cpu {
        self.set_pc(add16(add16(self.registers.pc, 1), signed(self.spec_imm8()))).add_cycles(12)
    }

    /// JP nn: loads the 16-bit immediate into PC.
    pub fn jp_imm16(&mut self)
        requires
            old(self).registers.pc < 0xFFFF,
        ensures
            *final(self) == old(self).spec_jp_imm16(),
    {
        let imm16 = self.get_imm16();
        self.registers.pc = imm16;
        self.increment_clock_cycles(16);
    }

    /// JP cc, nn: jumps to the 16-bit immediate if the condition in bits 5-3 is met; otherwise
    /// PC skips the immediate (12 cycles).
    pub fn jp_cc_imm16(&mut self, opcode: u8)
        requires
            old(self).spec_condition(opcode) ==> old(self).registers.pc < 0xFFFF,
        ensures
            *final(self) == if old(self).spec_condition(opcode) {
                old(self).spec_jp_imm16()
            } else {
                old(self).advance_pc(2).add_cycles(12)
            },
    {
        if self.check_cc_condition(opcode) {
            self.jp_imm16();
        } else {
            self.registers.increment_pc_twice();
            self.increment_clock_cycles(12);
        }
    }

    /// JR e: adds the immediate byte, read as a signed offset (-128 to 127), to the address
    /// that follows it.
    /// Example: JR at 0x0200 with offset 0x32 jumps to 0x0234; with offset 0xF6 (-10) at
    /// 0x0300 it jumps to 0x02F8.
    pub fn jr_imm8(&mut self)
        ensures
            *final(self) == old(self).spec_jr_imm8(),
    {
        let offset = self.get_imm8();
        self.registers.increment_pc();

        // The offset sign-extended to 16 bits, so that the wrapping addition subtracts for
        // negative offsets.
        let offset_u16: u16 = if offset < 128 {
            offset as u16
        } else {
            offset as u16 + 0xFF00
        };
        self.registers.pc = self.registers.pc.wrapping_add(offset_u16);
        self.increment_clock_cycles(12);
    }

    /// JR cc, e: jumps as JR e if the condition in bits 4-3 is met; otherwise nothing changes.
    pub fn jr_cc_imm8(&mut self, opcode: u8)
        ensures
            *final(self) == if old(self).spec_jr_condition(opcode) {
                old(self).spec_jr_imm8()
            } else {
                *old(self)
            },
    {
        proof {
            lemma_opcode_fields(opcode);
        }
        let condition = (opcode & 0b00011000) >> 3;
        let condition_met = match condition {
            0 => !self.registers.flags.z,
            1 => self.registers.flags.z,
            2 => !self.registers.flags.c,
            _ => self.registers.flags.c,
        };

        if condition_met {
            self.jr_imm8();
        }
    }

    /// JP HL: loads HL into PC; 4 cycles.
    pub fn jp_hl(&mut self)
        ensures
            *final(self) == old(self).set_pc(old(self).registers.spec_hl()).add_cycles(4),
    {
        self.registers.pc = self.registers.get_hl();
        self.increment_clock_cycles(4);
    }
}

} // verus!
