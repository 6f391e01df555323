use vstd::prelude::*;

use crate::bits::{hi_byte, lemma_opcode_fields, lemma_split_word, lo_byte, word};
use crate::constants::{GAME_SECTION_HEIGHT, GAME_SECTION_WIDTH, MEMORY_SIZE};
use crate::cpu_components::{CpuRegisters, FlagsRegister, MemoryBus};
use crate::ppu::{spec_screen_pixel, Object, Ppu};

verus! {

broadcast use MemoryBus::lemma_view_len, MemoryBus::lemma_spec_write;

/// The Game Boy: CPU registers, memory, PPU and interrupt state.
pub struct Cpu {
    pub registers: CpuRegisters,
    pub memory_bus: MemoryBus,
    pub is_debug_mode: bool,
    pub ppu: Ppu,
    /// Clock cycles executed so far; the counter wraps around.
    pub cycles: u64,
    /// The Interrupt Master Enable flag.
    pub ime: bool,
    /// A DI instruction was executed; IME is cleared after the next instruction.
    pub di_instruction_pending: bool,
    /// An EI instruction was executed; IME is set after the next instruction.
    pub ei_instruction_pending: bool,
    /// The CPU is halted until an interrupt is pending.
    pub is_halt_mode: bool,
}

/// The value of a byte read as a two's complement signed number.
pub open spec fn signed(v: u8) -> int {
    if v < 128 {
        v as int
    } else {
        v - 256
    }
}

/// `v` plus `n`, wrapping around at 16 bits.
pub open spec fn add16(v: u16, n: int) -> u16 {
    ((v + n) % 65536) as u16
}

impl Cpu {
    /// The byte stored at `address`.
    pub open spec fn spec_mem(self, address: u16) -> u8 {
        self.memory_bus.spec_read(address)
    }

    /// The CPU with its registers replaced.
    pub open spec fn set_regs(self, registers: CpuRegisters) -> Cpu {
        Cpu { registers, ..self }
    }

    /// The CPU after storing `value` at `address`.
    pub open spec fn set_mem(self, address: u16, value: u8) -> Cpu {
        Cpu { memory_bus: self.memory_bus.spec_write(address, value), ..self }
    }

    /// The CPU with register A replaced.
    pub open spec fn set_a(self, value: u8) -> Cpu {
        self.set_regs(CpuRegisters { a: value, ..self.registers })
    }

    /// The CPU with the flags replaced.
    pub open spec fn set_flags(self, flags: FlagsRegister) -> Cpu {
        self.set_regs(self.registers.with_flags(flags))
    }

    /// The CPU with PC replaced.
    pub open spec fn set_pc(self, pc: u16) -> Cpu {
        self.set_regs(CpuRegisters { pc, ..self.registers })
    }

    /// The CPU with SP replaced.
    pub open spec fn set_sp(self, sp: u16) -> Cpu {
        self.set_regs(CpuRegisters { sp, ..self.registers })
    }

    /// The CPU with HL replaced.
    pub open spec fn set_hl(self, hl: u16) -> Cpu {
        self.set_regs(self.registers.with_hl(hl))
    }

    /// The CPU with PC advanced by `n`, wrapping around.
    pub open spec fn advance_pc(self, n: int) -> Cpu {
        self.set_pc(add16(self.registers.pc, n))
    }

    /// The CPU with `n` clock cycles added to the cycle counter, wrapping around.
    pub open spec fn add_cycles(self, n: u64) -> Cpu {
        Cpu { cycles: ((self.cycles + n) % 0x1_0000_0000_0000_0000) as u64, ..self }
    }

    /// The byte at PC: the 8-bit immediate operand.
    pub open spec fn spec_imm8(self) -> u8 {
        self.spec_mem(self.registers.pc)
    }

    /// The two bytes at PC in little-endian order: the 16-bit immediate operand.
    pub open spec fn spec_imm16(self) -> u16 {
        word(self.spec_mem(add16(self.registers.pc, 1)), self.spec_mem(self.registers.pc))
    }

    /// The byte at the address held in HL.
    pub open spec fn spec_at_hl(self) -> u8 {
        self.spec_mem(self.registers.spec_hl())
    }

    /// The CPU after pushing `value`: SP is decremented and the high byte stored, then SP is
    /// decremented again and the low byte stored.
    pub open spec fn spec_push(self, value: u16) -> Cpu {
        let sp1 = add16(self.registers.sp, -1);
        let sp2 = add16(self.registers.sp, -2);
        self.set_mem(sp1, hi_byte(value)).set_mem(sp2, lo_byte(value)).set_sp(sp2)
    }

    /// The value that a pop reads: the low byte at SP and the high byte at SP + 1.
    pub open spec fn spec_top_of_stack(self) -> u16 {
        word(self.spec_mem(add16(self.registers.sp, 1)), self.spec_mem(self.registers.sp))
    }

    /// The CPU after a pop: SP is incremented by 2.
    pub open spec fn spec_pop(self) -> Cpu {
        self.set_sp(add16(self.registers.sp, 2))
    }

    /// The branch condition encoded in bits 5-3 of a CALL, JP or RET opcode:
    /// 0 NZ, 1 Z, 2 NC, 3 C; any other value is never met.
    pub open spec fn spec_condition(self, opcode: u8) -> bool {
        let cc = (opcode / 8) % 8;
        if cc == 0 {
            !self.registers.flags.z
        } else if cc == 1 {
            self.registers.flags.z
        } else if cc == 2 {
            !self.registers.flags.c
        } else if cc == 3 {
            self.registers.flags.c
        } else {
            false
        }
    }

    /// The value of the 16-bit register with code `register`: BC, DE, HL, SP (0-3).
    pub open spec fn spec_r16(self, register: u8) -> u16 {
        if register == 0 {
            self.registers.spec_bc()
        } else if register == 1 {
            self.registers.spec_de()
        } else if register == 2 {
            self.registers.spec_hl()
        } else {
            self.registers.sp
        }
    }

    /// The CPU after writing `value` to the 16-bit register with code `register`:
    /// BC, DE, HL, SP (0-3).
    pub open spec fn spec_set_r16(self, register: u8, value: u16) -> Cpu {
        if register == 0 {
            self.set_regs(self.registers.with_bc(value))
        } else if register == 1 {
            self.set_regs(self.registers.with_de(value))
        } else if register == 2 {
            self.set_regs(self.registers.with_hl(value))
        } else {
            self.set_sp(value)
        }
    }

    /// The power-on state: registers as after the boot ROM, memory zero except LCDC = 0x91 and
    /// BGP = 0xFC, all interrupt and halt flags clear, no cycles executed, a blank screen and
    /// empty objects.
    pub open spec fn spec_new_state(c: Cpu) -> bool {
        &&& c.registers == CpuRegisters {
            a: 0x01,
            b: 0,
            c: 0x13,
            d: 0,
            e: 0xD8,
            h: 0x01,
            l: 0x4D,
            sp: 0xFFFE,
            pc: 0x0100,
            flags: FlagsRegister::spec_new(),
        }
        &&& forall|i: int|
            0 <= i < MEMORY_SIZE ==> c.memory_bus@[i] == if i == 0xFF40 {
                0x91u8
            } else if i == 0xFF47 {
                0xFCu8
            } else {
                0u8
            }
        &&& !c.is_debug_mode
        &&& c.cycles == 0
        &&& !c.ime && !c.di_instruction_pending && !c.ei_instruction_pending && !c.is_halt_mode
        &&& c.ppu.dots == 0
        &&& forall|r: int, col: int|
            0 <= r < GAME_SECTION_HEIGHT && 0 <= col < GAME_SECTION_WIDTH ==> c.ppu.screen@[r]@[col]
                == 0
        &&& forall|i: int|
            0 <= i < 10 ==> c.ppu.objects_to_be_rendered@[i] == Object::spec_from_bytes(0, 0, 0, 0)
    }

    /// The CPU in its power-on state (see `spec_new_state`).
    pub fn new() -> (cpu: Self)
        ensures
            Self::spec_new_state(cpu),
    {
        let mut cpu = Self {
            registers: CpuRegisters::new(),
            memory_bus: MemoryBus::new(),
            is_debug_mode: false,
            ppu: Ppu::new(),
            cycles: 0,
            ime: false,
            di_instruction_pending: false,
            ei_instruction_pending: false,
            is_halt_mode: false,
        };
        cpu.initialize_memory_registers();
        cpu
    }

    /// Initializes the registers stored in memory: LCDC = 0x91 (LCD and BG enabled, tile data at
    /// $8000, BG tile map at $9800) and BGP = 0xFC.
    pub fn initialize_memory_registers(&mut self)
        ensures
            *final(self) == (Cpu {
                memory_bus: old(self).memory_bus.spec_write(0xFF40, 0x91).spec_write(0xFF47, 0xFC),
                ..*old(self)
            }),
    {
        self.memory_bus.set_lcdc_register(0x91);
        self.memory_bus.set_bgp_register(0xFC);
    }

    /// A new CPU with the ROM image loaded at the start of memory.
    pub fn start(rom_binary: Vec<u8>, is_debug_mode: bool) -> (cpu: Self)
        requires
            rom_binary.len() <= MEMORY_SIZE,
        ensures
            cpu.is_debug_mode == is_debug_mode,
            exists|c: Cpu|
                Self::spec_new_state(c) && cpu == (Cpu {
                    is_debug_mode,
                    memory_bus: cpu.memory_bus,
                    ..c
                }) && cpu.memory_bus@ == rom_binary@ + c.memory_bus@.subrange(
                    rom_binary.len() as int,
                    MEMORY_SIZE as int,
                ),
    {
        let mut cpu = Self::new();
        let ghost c0 = cpu;
        cpu.load_rom(rom_binary);
        cpu.is_debug_mode = is_debug_mode;
        assert(cpu == (Cpu { is_debug_mode, memory_bus: cpu.memory_bus, ..c0 }));
        return cpu;
    }

    /// The opcode at PC.
    pub fn fetch_opcode(&self) -> (opcode: u8)
        ensures
            opcode == self.spec_imm8(),
    {
        self.memory_bus.read_byte(self.registers.pc)
    }

    /// Adds `n` clock cycles to the cycle counter (wrapping).
    pub fn increment_clock_cycles(&mut self, n: u64)
        ensures
            *final(self) == old(self).add_cycles(n),
    {
        self.cycles = self.cycles.wrapping_add(n);
    }

    /// Pushes a 16-bit value onto the stack: SP is decremented and the high byte stored, then SP
    /// is decremented again and the low byte stored.
    pub fn push_value_to_sp(&mut self, value: u16)
        ensures
            *final(self) == old(self).spec_push(value),
    {
        proof {
            lemma_split_word(value);
        }
        let high_byte = (value >> 8u16) as u8;
        let low_byte = (value & 0x1FFu16) as u8;

        self.registers.sp = self.registers.sp.wrapping_sub(1);
        self.memory_bus.write_byte(self.registers.sp, high_byte);
        self.registers.sp = self.registers.sp.wrapping_sub(1);
        self.memory_bus.write_byte(self.registers.sp, low_byte);
    }

    /// Pops a 16-bit value from the stack: the low byte is read at SP and the high byte at
    /// SP + 1; SP is incremented by 2.
    pub fn pop_value_from_sp(&mut self) -> (value: u16)
        ensures
            value == old(self).spec_top_of_stack(),
            *final(self) == old(self).spec_pop(),
    {
        let low_byte = self.memory_bus.read_byte(self.registers.sp);
        self.registers.sp = self.registers.sp.wrapping_add(1);
        let high_byte = self.memory_bus.read_byte(self.registers.sp);
        self.registers.sp = self.registers.sp.wrapping_add(1);
        proof {
            crate::bits::lemma_join_bytes(high_byte, low_byte);
        }
        ((high_byte as u16) << 8u16) | (low_byte as u16)
    }

    /// Whether the condition in bits 5-3 of a conditional CALL, JP or RET opcode is met:
    /// 0 NZ, 1 Z, 2 NC, 3 C; other values are never met.
    pub fn check_cc_condition(&self, opcode: u8) -> (met: bool)
        ensures
            met == self.spec_condition(opcode),
    {
        proof {
            lemma_opcode_fields(opcode);
        }
        match (opcode & 0b00111000) >> 3 {
            0 => !self.registers.flags.z,
            1 => self.registers.flags.z,
            0b10 => !self.registers.flags.c,
            0b11 => self.registers.flags.c,
            _ => false,
        }
    }

    /// The byte at PC: the 8-bit immediate operand.
    pub fn get_imm8(&self) -> (imm8: u8)
        ensures
            imm8 == self.spec_imm8(),
    {
        self.memory_bus.read_byte(self.registers.pc)
    }

    /// The two bytes at PC in little-endian order (least significant byte first).
    pub fn get_imm16(&self) -> (imm16: u16)
        requires
            self.registers.pc < 0xFFFF,
        ensures
            imm16 == self.spec_imm16(),
    {
        let lowest_significant_byte = self.memory_bus.read_byte(self.registers.pc);
        let most_significant_byte = self.memory_bus.read_byte(self.registers.pc + 1);
        proof {
            crate::bits::lemma_join_bytes(most_significant_byte, lowest_significant_byte);
        }
        ((most_significant_byte as u16) << 8u16) | (lowest_significant_byte as u16)
    }

    /// The destination register of an opcode: bits 5-3.
    pub fn get_destination_register(opcode: u8) -> (r: u8)
        ensures
            r == (opcode / 8) % 8,
    {
        proof {
            lemma_opcode_fields(opcode);
        }
        (opcode & 0b00111000) >> 3
    }

    /// The source register of an opcode: bits 2-0.
    pub fn get_source_register(opcode: u8) -> (r: u8)
        ensures
            r == opcode % 8,
    {
        proof {
            lemma_opcode_fields(opcode);
        }
        opcode & 0b00000111
    }

    /// The 16-bit destination register of an opcode: bits 5-4.
    pub fn get_16bit_destination_register(opcode: u8) -> (r: u8)
        ensures
            r == (opcode / 16) % 4,
    {
        proof {
            lemma_opcode_fields(opcode);
        }
        (opcode & 0b00110000) >> 4
    }

    /// Whether bits 5-3 of the opcode name an 8-bit register (not (HL)).
    pub fn destination_is_8bit_register(opcode: u8) -> (b: bool)
        ensures
            b == ((opcode / 8) % 8 != 6),
    {
        let destination_register = Cpu::get_destination_register(opcode);
        destination_register != 0b110
    }

    /// Whether bits 5-4 of the opcode name a 16-bit register; every value 0-3 does.
    pub fn destination_is_16bit_register(opcode: u8) -> (b: bool)
        ensures
            b,
    {
        let destination_register = Cpu::get_16bit_destination_register(opcode);
        destination_register <= 0b11
    }

    /// Whether bits 2-0 of the opcode name an 8-bit register (not (HL)).
    pub fn source_is_8bit_register(opcode: u8) -> (b: bool)
        ensures
            b == (opcode % 8 != 6),
    {
        let source_register = Cpu::get_source_register(opcode);
        source_register != 0b110
    }

    /// Reads the byte at the address held in HL.
    pub fn get_memory_value_at_hl(&self) -> (v: u8)
        ensures
            v == self.spec_at_hl(),
    {
        let hl = self.registers.get_hl();
        self.memory_bus.read_byte(hl)
    }

    /// Writes a byte at the address held in HL.
    pub fn write_memory_value_at_hl(&mut self, value: u8)
        ensures
            *final(self) == old(self).set_mem(old(self).registers.spec_hl(), value),
    {
        let hl = self.registers.get_hl();
        self.memory_bus.write_byte(hl, value);
    }

    /// Copies the ROM image to the start of memory.
    pub fn load_rom(&mut self, rom_binary: Vec<u8>)
        requires
            rom_binary.len() <= MEMORY_SIZE,
        ensures
            *final(self) == (Cpu { memory_bus: final(self).memory_bus, ..*old(self) }),
            final(self).memory_bus@ == rom_binary@ + old(self).memory_bus@.subrange(
                rom_binary.len() as int,
                MEMORY_SIZE as int,
            ),
    {
        self.memory_bus.copy_from_binary(rom_binary);
    }

    /// The visible 160x144 screen as colour indices.
    pub fn get_screen_buffer(&self) -> (buffer: [[u8; GAME_SECTION_WIDTH]; GAME_SECTION_HEIGHT])
        ensures
            forall|r: int, c: int|
                0 <= r < GAME_SECTION_HEIGHT && 0 <= c < GAME_SECTION_WIDTH ==> buffer@[r]@[c]
                    == spec_screen_pixel(self.memory_bus@, r, c),
    {
        self.ppu.get_bg_screen_buffer(&self.memory_bus)
    }

    /// Turns the debug mode (logging of every instruction) on or off.
    pub fn set_debug_mode(&mut self, value: bool)
        ensures
            *final(self) == (Cpu { is_debug_mode: value, ..*old(self) }),
    {
        self.is_debug_mode = value;
    }

    /// The CPU after the step that follows an instruction with a pending DI: IME is cleared
    /// unless the instruction was the DI itself.
    pub open spec fn spec_after_di(self, opcode: u8) -> Cpu {
        if opcode != 0xF3 && self.di_instruction_pending {
            Cpu { ime: false, di_instruction_pending: false, ..self }
        } else {
            self
        }
    }

    /// Clears IME if a DI instruction is pending and `opcode` is not the DI itself.
    pub fn disable_ime_if_di_instruction_pending(&mut self, opcode: u8)
        ensures
            *final(self) == old(self).spec_after_di(opcode),
    {
        if opcode != 0xF3 && self.di_instruction_pending {
            self.set_ime(false);
        }
    }

    /// Sets the IME (Interrupt Master Enable) flag and clears a pending DI.
    pub fn set_ime(&mut self, value: bool)
        ensures
            *final(self) == (Cpu { ime: value, di_instruction_pending: false, ..*old(self) }),
    {
        self.ime = value;
        self.di_instruction_pending = false;
    }
}

} // verus!
