use vstd::prelude::*;

use crate::bits::lemma_opcode_fields;
use crate::cpu::{add16, Cpu};
use crate::cpu_components::MemoryBus;

verus! {

broadcast use MemoryBus::lemma_view_len, MemoryBus::lemma_spec_write;

impl Cpu {
    /// CALL nn: the address after the two immediate bytes is pushed and PC takes the
    /// immediate.
    pub open spec fn spec_call_imm16(self) -> Cpu {
        self.spec_push(add16(self.registers.pc, 2)).set_pc(self.spec_imm16())
    }

    /// RET: PC takes the value popped from the stack.
    pub open spec fn spec_ret(self) -> Cpu {
        self.spec_pop().set_pc(self.spec_top_of_stack())
    }

    /// RST t: PC is pushed and PC takes `8 * t`, `t` being bits 5-3 of the opcode.
    pub open spec fn spec_rst(self, opcode: u8) -> Cpu {
        self.spec_push(self.registers.pc).set_pc((((opcode / 8) % 8) * 8) as u16)
    }

    /// CALL nn: pushes the address of the next instruction (after the two immediate bytes)
    /// and jumps to the immediate.
    /// Example: CALL 0x1234 at 0x8000 with SP = 0xFFFE stores 0x03 at 0xFFFC and 0x80 at
    /// 0xFFFD, and leaves SP = 0xFFFC, PC = 0x1234.
    pub fn call_imm16(&mut self)
        requires
            old(self).registers.pc < 0xFFFF,
        ensures
            *final(self) == old(self).spec_call_imm16(),
    {
        let target = self.get_imm16();
        let return_address = self.registers.pc.wrapping_add(2);
        self.push_value_to_sp(return_address);
        self.registers.pc = target;
    }

    /// CALL cc, nn: calls the immediate if the condition in bits 5-3 is met (0 NZ, 1 Z, 2 NC,
    /// 3 C; other values are never met); otherwise PC skips the immediate.
    pub fn call_cc_imm16(&mut self, opcode: u8)
        requires
            old(self).spec_condition(opcode) ==> old(self).registers.pc < 0xFFFF,
        ensures
            *final(self) == if old(self).spec_condition(opcode) {
                old(self).spec_call_imm16()
            } else {
                old(self).advance_pc(2)
            },
    {
        if self.check_cc_condition(opcode) {
            self.call_imm16();
        } else {
            self.registers.increment_pc_twice();
        }
    }

    /// RET: pops the return address into PC; SP is incremented by 2.
    pub fn ret(&mut self)
        ensures
            *final(self) == old(self).spec_ret(),
    {
        self.registers.pc = self.pop_value_from_sp();
    }

    /// RET cc: returns if the condition in bits 5-3 is met; otherwise nothing changes.
    pub fn ret_cc(&mut self, opcode: u8)
        ensures
            *final(self) == if old(self).spec_condition(opcode) {
                old(self).spec_ret()
            } else {
                *old(self)
            },
    {
        if self.check_cc_condition(opcode) {
            self.registers.pc = self.pop_value_from_sp();
        }
    }

    /// RST t: pushes PC and jumps to one of the eight page-0 addresses 0x00, 0x08, ..., 0x38
    /// given by bits 5-3 of the opcode.
    pub fn rst(&mut self, opcode: u8)
        ensures
            *final(self) == old(self).spec_rst(opcode),
    {
        proof {
            lemma_opcode_fields(opcode);
        }
        self.push_value_to_sp(self.registers.pc);
        self.registers.pc = match (opcode & 0b00111000) >> 3 {
            0 => 0x0000,
            1 => 0x0008,
            2 => 0x0010,
            3 => 0x0018,
            4 => 0x0020,
            5 => 0x0028,
            6 => 0x0030,
            _ => 0x0038,
        };
    }
}

} // verus!
