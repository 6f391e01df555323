use vstd::prelude::*;

use crate::constants::START_ADDRESS_FOR_LOAD_INSTRUCTIONS;
use crate::cpu::{add16, Cpu};
use crate::cpu_components::MemoryBus;

verus! {

broadcast use MemoryBus::lemma_view_len, MemoryBus::lemma_spec_write;

impl Cpu {
    /// LD r, n: the destination register (bits 5-3) takes the immediate byte; PC skips it.
    pub open spec fn spec_ld_r8_imm8(self, opcode: u8) -> Cpu {
        self.set_regs(self.registers.spec_set_8bit((opcode / 8) % 8, self.spec_imm8())).advance_pc(1)
    }

    /// LD r, r': the destination register (bits 5-3) takes the source register (bits 2-0).
    pub open spec fn spec_ld_r8_r8(self, opcode: u8) -> Cpu {
        let destination = (opcode / 8) % 8;
        let source = opcode % 8;
        if destination == source {
            self
        } else {
            self.set_regs(
                self.registers.spec_set_8bit(destination, self.registers.spec_get_8bit(source)),
            )
        }
    }

    /// LD r, (HL): the destination register (bits 5-3) takes the byte at HL.
    pub open spec fn spec_ld_r8_hl(self, opcode: u8) -> Cpu {
        self.set_regs(self.registers.spec_set_8bit((opcode / 8) % 8, self.spec_at_hl()))
    }

    /// LD (HL), r: the byte at HL takes the source register (bits 2-0).
    pub open spec fn spec_ld_hl_r8(self, opcode: u8) -> Cpu {
        self.set_mem(self.registers.spec_hl(), self.registers.spec_get_8bit(opcode % 8))
    }

    /// LD (HL), n: the byte at HL takes the immediate byte; PC skips it.
    pub open spec fn spec_ld_hl_imm8(self) -> Cpu {
        self.set_mem(self.registers.spec_hl(), self.spec_imm8()).advance_pc(1)
    }

    /// The high memory address $FF00 + `offset`.
    pub open spec fn high_address(offset: u8) -> u16 {
        (0xFF00 + offset) as u16
    }

    /// LD A, (rr): A takes the byte at `address`.
    pub open spec fn spec_load_a(self, address: u16) -> Cpu {
        self.set_a(self.spec_mem(address))
    }

    /// LD (rr), A: the byte at `address` takes A.
    pub open spec fn spec_store_a(self, address: u16) -> Cpu {
        self.set_mem(address, self.registers.a)
    }

    /// Load the 8-bit immediate value into the destination register (bits 5-3).
    pub fn ld_r8_imm8(&mut self, opcode: u8)
        ensures
            *final(self) == old(self).spec_ld_r8_imm8(opcode),
    {
        let destination = Cpu::get_destination_register(opcode);
        let imm8 = self.get_imm8();
        self.registers.set_8bit_register_value(destination, imm8);
        self.registers.increment_pc();
    }

    /// Load the source register (bits 2-0) into the destination register (bits 5-3).
    pub fn ld_r8_r8(&mut self, opcode: u8)
        ensures
            *final(self) == old(self).spec_ld_r8_r8(opcode),
    {
        let destination = Cpu::get_destination_register(opcode);
        let source = Cpu::get_source_register(opcode);

        if destination == source {
            return ;
        }
        let value = self.registers.get_8bit_register_value(source);
        self.registers.set_8bit_register_value(destination, value);
    }

    /// Load the byte at HL into the destination register (bits 5-3).
    pub fn ld_r8_hl(&mut self, opcode: u8)
        ensures
            *final(self) == old(self).spec_ld_r8_hl(opcode),
    {
        let destination = Cpu::get_destination_register(opcode);
        let value = self.get_memory_value_at_hl();
        self.registers.set_8bit_register_value(destination, value);
    }

    /// Stores the source register (bits 2-0) in memory at HL.
    pub fn ld_hl_r8(&mut self, opcode: u8)
        ensures
            *final(self) == old(self).spec_ld_hl_r8(opcode),
    {
        let source = Cpu::get_source_register(opcode);
        let value = self.registers.get_8bit_register_value(source);
        let hl = self.registers.get_hl();
        self.memory_bus.write_byte(hl, value);
    }

    /// Loads the immediate byte into memory at HL.
    pub fn ld_hl_imm8(&mut self)
        ensures
            *final(self) == old(self).spec_ld_hl_imm8(),
    {
        let imm8 = self.get_imm8();
        let hl = self.registers.get_hl();
        self.memory_bus.write_byte(hl, imm8);
        self.registers.increment_pc();
    }

    /// Loads the byte at BC into A.
    pub fn ld_a_bc(&mut self)
        ensures
            *final(self) == old(self).spec_load_a(old(self).registers.spec_bc()),
    {
        let bc = self.registers.get_bc();
        let value = self.memory_bus.read_byte(bc);
        self.registers.a = value;
    }

    /// Loads the byte at DE into A.
    pub fn ld_a_de(&mut self)
        ensures
            *final(self) == old(self).spec_load_a(old(self).registers.spec_de()),
    {
        let de = self.registers.get_de();
        let value = self.memory_bus.read_byte(de);
        self.registers.a = value;
    }

    /// Loads into A the byte at $FF00 + C.
    pub fn ld_a_c(&mut self)
        ensures
            *final(self) == old(self).spec_load_a(Self::high_address(old(self).registers.c)),
    {
        let c_register_value = self.registers.c as u16;
        let ram_address = START_ADDRESS_FOR_LOAD_INSTRUCTIONS + c_register_value;
        let value = self.memory_bus.read_byte(ram_address);
        self.registers.a = value;
    }

    /// Stores A at $FF00 + C.
    pub fn ld_c_a(&mut self)
        ensures
            *final(self) == old(self).spec_store_a(Self::high_address(old(self).registers.c)),
    {
        let c_register_value = self.registers.c as u16;
        let ram_address = START_ADDRESS_FOR_LOAD_INSTRUCTIONS + c_register_value;
        self.memory_bus.write_byte(ram_address, self.registers.a);
    }

    /// Loads into A the byte at $FF00 + n, n being the immediate byte; PC skips it.
    pub fn ld_a_imm8(&mut self)
        ensures
            *final(self) == old(self).spec_load_a(Self::high_address(old(self).spec_imm8())).advance_pc(1),
    {
        let imm8 = self.get_imm8() as u16;
        let address_to_read_from = START_ADDRESS_FOR_LOAD_INSTRUCTIONS + imm8;
        let value = self.memory_bus.read_byte(address_to_read_from);
        self.registers.a = value;
        self.registers.increment_pc();
    }

    /// Stores A at $FF00 + n, n being the immediate byte; PC skips it.
    pub fn ld_imm8_a(&mut self)
        ensures
            *final(self) == old(self).spec_store_a(Self::high_address(old(self).spec_imm8())).advance_pc(1),
    {
        let imm8 = self.get_imm8() as u16;
        let address_to_write = START_ADDRESS_FOR_LOAD_INSTRUCTIONS + imm8;
        self.memory_bus.write_byte(address_to_write, self.registers.a);
        self.registers.increment_pc();
    }

    /// Loads into A the byte at the 16-bit immediate address; PC skips the two bytes.
    pub fn ld_a_imm16(&mut self)
        requires
            old(self).registers.pc < 0xFFFF,
        ensures
            *final(self) == old(self).spec_load_a(old(self).spec_imm16()).advance_pc(2),
    {
        let imm16 = self.get_imm16();
        let value = self.memory_bus.read_byte(imm16);
        self.registers.a = value;
        self.registers.increment_pc_twice();
    }

    /// Stores A at the 16-bit immediate address; PC skips the two bytes.
    pub fn ld_imm16_a(&mut self)
        requires
            old(self).registers.pc < 0xFFFF,
        ensures
            *final(self) == old(self).spec_store_a(old(self).spec_imm16()).advance_pc(2),
    {
        let imm16 = self.get_imm16();
        self.memory_bus.write_byte(imm16, self.registers.a);
        self.registers.increment_pc_twice();
    }

    /// Loads into A the byte at HL and increments HL (wrapping).
    pub fn ld_a_hli(&mut self)
        ensures
            *final(self) == old(self).spec_load_a(old(self).registers.spec_hl()).set_hl(
                add16(old(self).registers.spec_hl(), 1),
            ),
    {
        let value = self.get_memory_value_at_hl();
        self.registers.a = value;
        self.registers.increment_hl();
    }

    /// Loads into A the byte at HL and decrements HL (wrapping).
    pub fn ld_a_hld(&mut self)
        ensures
            *final(self) == old(self).spec_load_a(old(self).registers.spec_hl()).set_hl(
                add16(old(self).registers.spec_hl(), -1),
            ),
    {
        let value = self.get_memory_value_at_hl();
        self.registers.a = value;
        self.registers.decrement_hl();
    }

    /// Stores A at BC.
    pub fn ld_bc_a(&mut self)
        ensures
            *final(self) == old(self).spec_store_a(old(self).registers.spec_bc()),
    {
        let bc = self.registers.get_bc();
        self.memory_bus.write_byte(bc, self.registers.a);
    }

    /// Stores A at DE.
    pub fn ld_de_a(&mut self)
        ensures
            *final(self) == old(self).spec_store_a(old(self).registers.spec_de()),
    {
        let de = self.registers.get_de();
        self.memory_bus.write_byte(de, self.registers.a);
    }

    /// Stores A at HL and increments HL (wrapping).
    pub fn ld_hli_a(&mut self)
        ensures
            *final(self) == old(self).spec_store_a(old(self).registers.spec_hl()).set_hl(
                add16(old(self).registers.spec_hl(), 1),
            ),
    {
        let hl = self.registers.get_hl();
        self.memory_bus.write_byte(hl, self.registers.a);
        self.registers.increment_hl();
    }

    /// Stores A at HL and decrements HL (wrapping).
    pub fn ld_hld_a(&mut self)
        ensures
            *final(self) == old(self).spec_store_a(old(self).registers.spec_hl()).set_hl(
                add16(old(self).registers.spec_hl(), -1),
            ),
    {
        let hl = self.registers.get_hl();
        self.memory_bus.write_byte(hl, self.registers.a);
        self.registers.decrement_hl();
    }
}

} // verus!
