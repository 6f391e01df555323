use vstd::prelude::*;

use crate::bits::{hi_byte, lemma_bit_tests, lemma_join_bytes, lemma_split_word, lo_byte, word};
use crate::constants::{INITIAL_PC, MEMORY_SIZE};
use crate::interrupts::InterruptType;
use crate::ppu_components::LcdcRegister;
use crate::registers_constants::{BGP, DIV, IF, LCDC, SCX, SCY, TAC, TIMA, TMA};

verus! {

/// The CPU registers. The flags register F is kept as its four flags in `flags`.
pub struct CpuRegisters {
    pub a: u8,
    pub b: u8,
    pub c: u8,
    pub d: u8,
    pub e: u8,
    pub h: u8,
    pub l: u8,
    pub sp: u16,
    pub pc: u16,
    pub flags: FlagsRegister,
}

/// Represents the CPU Flags Register, stored as individual boolean fields; in hardware they
/// are packed into a single byte `Z N H C 0 0 0 0`.
pub struct FlagsRegister {
    /// Zero Flag: true if the last operation resulted in zero.
    pub z: bool,
    /// Half Carry Flag: true if there was a carry from bit 3 to bit 4 in the last operation.
    pub h: bool,
    /// Subtract Flag: true if the last operation was a subtraction.
    pub n: bool,
    /// Carry Flag: true if there was a carry from bit 7 to bit 8 in the last operation.
    pub c: bool,
}

/// The 64 KB address space of the Game Boy.
pub struct MemoryBus {
    memory: [u8; MEMORY_SIZE],
}

/// The flags register as a byte: bit 7 Z, bit 6 N, bit 5 H, bit 4 C, bits 3-0 zero.
pub open spec fn flags_byte(f: FlagsRegister) -> u8 {
    ((if f.z { 128int } else { 0int }) + (if f.n { 64int } else { 0int }) + (if f.h { 32int } else { 0int })
        + (if f.c { 16int } else { 0int })) as u8
}

/// The flags encoded by a byte: bit 7 Z, bit 6 N, bit 5 H, bit 4 C; bits 3-0 are ignored.
pub open spec fn flags_of_byte(v: u8) -> FlagsRegister {
    FlagsRegister { z: v >= 128, n: (v / 64) % 2 == 1, h: (v / 32) % 2 == 1, c: (v / 16) % 2 == 1 }
}

/// Whether `register` is the code of an 8-bit register in instruction encoding
/// (B=0, C=1, D=2, E=3, H=4, L=5, A=7; code 6 stands for (HL)).
pub open spec fn is_8bit_register_code(register: u8) -> bool {
    register <= 7 && register != 6
}

impl CpuRegisters {
    /// The value of the 8-bit register with the given code; 0 for any other code.
    pub open spec fn spec_get_8bit(self, register: u8) -> u8 {
        if register == 0 {
            self.b
        } else if register == 1 {
            self.c
        } else if register == 2 {
            self.d
        } else if register == 3 {
            self.e
        } else if register == 4 {
            self.h
        } else if register == 5 {
            self.l
        } else if register == 7 {
            self.a
        } else {
            0
        }
    }

    /// The registers after writing `value` to the 8-bit register with the given code;
    /// unchanged for any other code.
    pub open spec fn spec_set_8bit(self, register: u8, value: u8) -> CpuRegisters {
        if register == 0 {
            CpuRegisters { b: value, ..self }
        } else if register == 1 {
            CpuRegisters { c: value, ..self }
        } else if register == 2 {
            CpuRegisters { d: value, ..self }
        } else if register == 3 {
            CpuRegisters { e: value, ..self }
        } else if register == 4 {
            CpuRegisters { h: value, ..self }
        } else if register == 5 {
            CpuRegisters { l: value, ..self }
        } else if register == 7 {
            CpuRegisters { a: value, ..self }
        } else {
            self
        }
    }

    /// The register pair AF.
    pub open spec fn spec_af(self) -> u16 {
        word(self.a, flags_byte(self.flags))
    }

    /// The register pair BC.
    pub open spec fn spec_bc(self) -> u16 {
        word(self.b, self.c)
    }

    /// The register pair DE.
    pub open spec fn spec_de(self) -> u16 {
        word(self.d, self.e)
    }

    /// The register pair HL.
    pub open spec fn spec_hl(self) -> u16 {
        word(self.h, self.l)
    }

    /// The registers after writing `value` to the pair AF (the low nibble of F is dropped).
    pub open spec fn with_af(self, value: u16) -> CpuRegisters {
        CpuRegisters { a: hi_byte(value), flags: flags_of_byte(lo_byte(value)), ..self }
    }

    /// The registers after writing `value` to the pair BC.
    pub open spec fn with_bc(self, value: u16) -> CpuRegisters {
        CpuRegisters { b: hi_byte(value), c: lo_byte(value), ..self }
    }

    /// The registers after writing `value` to the pair DE.
    pub open spec fn with_de(self, value: u16) -> CpuRegisters {
        CpuRegisters { d: hi_byte(value), e: lo_byte(value), ..self }
    }

    /// The registers after writing `value` to the pair HL.
    pub open spec fn with_hl(self, value: u16) -> CpuRegisters {
        CpuRegisters { h: hi_byte(value), l: lo_byte(value), ..self }
    }

    /// The registers after replacing the flags.
    pub open spec fn with_flags(self, flags: FlagsRegister) -> CpuRegisters {
        CpuRegisters { flags, ..self }
    }

    /// The registers as the boot ROM leaves them.
    pub fn new() -> (r: Self)
        ensures
            r.a == 0x01 && r.b == 0 && r.c == 0x13 && r.d == 0 && r.e == 0xD8,
            r.h == 0x01 && r.l == 0x4D && r.sp == 0xFFFE && r.pc == INITIAL_PC,
            r.flags == FlagsRegister::spec_new(),
    {
        Self {
            a: 0x01,
            b: 0,
            c: 0x13,
            d: 0,
            e: 0xD8,
            h: 0x01,
            l: 0x4D,
            sp: 0xFFFE,
            pc: INITIAL_PC,
            flags: FlagsRegister::new(),
        }
    }

    /// Advances PC by one, wrapping around at 0xFFFF.
    pub fn increment_pc(&mut self)
        ensures
            *final(self) == (CpuRegisters { pc: ((old(self).pc + 1) % 65536) as u16, ..*old(self) }),
    {
        self.pc = self.pc.wrapping_add(1);
    }

    /// Advances PC by two, wrapping around at 0xFFFF.
    pub fn increment_pc_twice(&mut self)
        ensures
            *final(self) == (CpuRegisters { pc: ((old(self).pc + 2) % 65536) as u16, ..*old(self) }),
    {
        self.pc = self.pc.wrapping_add(2);
    }

    /// Advances SP by one, wrapping around at 0xFFFF.
    pub fn increment_sp(&mut self)
        ensures
            *final(self) == (CpuRegisters { sp: ((old(self).sp + 1) % 65536) as u16, ..*old(self) }),
    {
        self.sp = self.sp.wrapping_add(1);
    }

    /// Writes `value` to the 8-bit register with the given code (B=0, C=1, D=2, E=3, H=4, L=5,
    /// A=7); any other code leaves the registers unchanged.
    pub fn set_8bit_register_value(&mut self, register: u8, value: u8)
        ensures
            *final(self) == old(self).spec_set_8bit(register, value),
    {
        match register {
            0b000 => self.b = value,
            0b111 => self.a = value,
            0b001 => self.c = value,
            0b010 => self.d = value,
            0b011 => self.e = value,
            0b100 => self.h = value,
            0b101 => self.l = value,
            _ => (),
        }
    }

    /// Reads the 8-bit register with the given code (B=0, C=1, D=2, E=3, H=4, L=5, A=7);
    /// any other code reads 0.
    pub fn get_8bit_register_value(&self, register: u8) -> (v: u8)
        ensures
            v == self.spec_get_8bit(register),
    {
        match register {
            0b000 => self.b,
            0b111 => self.a,
            0b001 => self.c,
            0b010 => self.d,
            0b011 => self.e,
            0b100 => self.h,
            0b101 => self.l,
            _ => 0,
        }
    }

    /// The register pair AF: A and the flags byte.
    pub fn get_af(&self) -> (v: u16)
        ensures
            v == self.spec_af(),
    {
        let f = self.flags.get_flags_as_u8();
        proof {
            lemma_join_bytes(self.a, f);
        }
        ((self.a as u16) << 8u16) | f as u16
    }

    /// The register pair BC.
    pub fn get_bc(&self) -> (v: u16)
        ensures
            v == self.spec_bc(),
    {
        proof {
            lemma_join_bytes(self.b, self.c);
        }
        ((self.b as u16) << 8u16) | (self.c as u16)
    }

    /// The register pair DE.
    pub fn get_de(&self) -> (v: u16)
        ensures
            v == self.spec_de(),
    {
        proof {
            lemma_join_bytes(self.d, self.e);
        }
        ((self.d as u16) << 8u16) | (self.e as u16)
    }

    /// The register pair HL.
    pub fn get_hl(&self) -> (v: u16)
        ensures
            v == self.spec_hl(),
    {
        proof {
            lemma_join_bytes(self.h, self.l);
        }
        ((self.h as u16) << 8u16) | (self.l as u16)
    }

    /// Adds one to HL, wrapping around at 0xFFFF.
    pub fn increment_hl(&mut self)
        ensures
            *final(self) == old(self).with_hl(((old(self).spec_hl() + 1) % 65536) as u16),
    {
        let hl = self.get_hl();
        let new_hl = hl.wrapping_add(1);
        self.set_hl(new_hl);
    }

    /// Subtracts one from HL, wrapping around at 0x0000.
    pub fn decrement_hl(&mut self)
        ensures
            *final(self) == old(self).with_hl(((old(self).spec_hl() + 65535) % 65536) as u16),
    {
        let hl = self.get_hl();
        let new_hl = hl.wrapping_sub(1);
        self.set_hl(new_hl);
    }

    /// Writes AF: A takes the high byte, the flags take bits 7-4 of the low byte.
    pub fn set_af(&mut self, value: u16)
        ensures
            *final(self) == old(self).with_af(value),
    {
        proof {
            lemma_split_word(value);
        }
        self.a = (value >> 8u16) as u8;
        self.flags.set_flags_from_u8((value & 0x1FFu16) as u8);
    }

    /// Writes the register pair BC.
    pub fn set_bc(&mut self, value: u16)
        ensures
            *final(self) == old(self).with_bc(value),
    {
        proof {
            lemma_split_word(value);
        }
        let b = (value >> 8u16) as u8;
        let c = (value & 0x1FFu16) as u8;
        self.b = b;
        self.c = c;
    }

    /// Writes the register pair DE.
    pub fn set_de(&mut self, value: u16)
        ensures
            *final(self) == old(self).with_de(value),
    {
        proof {
            lemma_split_word(value);
        }
        let d = (value >> 8u16) as u8;
        let e = (value & 0x1FFu16) as u8;
        self.d = d;
        self.e = e;
    }

    /// Writes the register pair HL.
    pub fn set_hl(&mut self, value: u16)
        ensures
            *final(self) == old(self).with_hl(value),
    {
        proof {
            lemma_split_word(value);
        }
        let h = (value >> 8u16) as u8;
        let l = (value & 0x1FFu16) as u8;
        self.h = h;
        self.l = l;
    }
}

impl FlagsRegister {
    /// The flags at power-on: Z, H and C set, N reset.
    pub open spec fn spec_new() -> FlagsRegister {
        FlagsRegister { z: true, n: false, h: true, c: true }
    }

    /// Whether adding `value1` and `value2` carries from bit 3 to bit 4.
    pub open spec fn spec_half_carry_add(value1: u8, value2: u8) -> bool {
        value1 % 16 + value2 % 16 > 15
    }

    /// Whether adding two 16-bit values carries from bit 11 to bit 12.
    pub open spec fn spec_half_carry_add_u16(value1: u16, value2: u16) -> bool {
        value1 % 4096 + value2 % 4096 > 4095
    }

    /// Whether subtracting `value2` from `value1` borrows from bit 4.
    pub open spec fn spec_half_carry_sub(value1: u8, value2: u8) -> bool {
        value1 % 16 < value2 % 16
    }

    /// The flags at power-on.
    pub fn new() -> (f: Self)
        ensures
            f == Self::spec_new(),
    {
        Self { z: true, n: false, h: true, c: true }
    }

    /// The Z flag.
    pub fn get_zero_flag(&self) -> (z: bool)
        ensures
            z == self.z,
    {
        self.z
    }

    /// This bit is set if a carry occurred from the last math operation.
    pub fn set_c_flag(&mut self, carry: bool)
        ensures
            *final(self) == (FlagsRegister { c: carry, ..*old(self) }),
    {
        self.c = carry
    }

    /// Whether there is a carry from the lower nibble: the lower nibbles of both values
    /// added together exceed 0xF.
    pub fn calculate_h_flag_on_add(value1: u8, value2: u8) -> (h: bool)
        ensures
            h == Self::spec_half_carry_add(value1, value2),
    {
        proof {
            crate::bits::lemma_shift_right(value1);
            crate::bits::lemma_shift_right(value2);
        }
        let value1_lower_nibble = value1 & 0b00001111;
        let value2_lower_nibble = value2 & 0b00001111;

        value1_lower_nibble + value2_lower_nibble > 0xF
    }

    /// Half-carry for 16-bit additions: set if there is a carry from bit 11 to bit 12.
    pub fn calculate_h_flag_on_add_u16_numbers(value1: u16, value2: u16) -> (h: bool)
        ensures
            h == Self::spec_half_carry_add_u16(value1, value2),
    {
        proof {
            crate::bits::lemma_low_twelve_bits(value1);
            crate::bits::lemma_low_twelve_bits(value2);
        }
        let value1_bit_11 = value1 & 0x0FFF;
        let value2_bit_11 = value2 & 0x0FFF;

        value1_bit_11 + value2_bit_11 > 0x0FFF
    }

    /// Half-carry for subtraction: set when the lower nibble of `value1` is less than the
    /// lower nibble of `value2` (a borrow from bit 4).
    pub fn calculate_h_flag_on_sub(value1: u8, value2: u8) -> (h: bool)
        ensures
            h == Self::spec_half_carry_sub(value1, value2),
    {
        proof {
            crate::bits::lemma_shift_right(value1);
            crate::bits::lemma_shift_right(value2);
        }
        (value1 & 0x0F) < (value2 & 0x0F)
    }

    /// Sets the Z flag to the provided boolean value.
    pub fn set_z_flag(&mut self, z_flag: bool)
        ensures
            *final(self) == (FlagsRegister { z: z_flag, ..*old(self) }),
    {
        self.z = z_flag;
    }

    /// Sets the Z flag if and only if `result` is zero.
    pub fn set_z_flag_from_u8(&mut self, result: u8)
        ensures
            *final(self) == (FlagsRegister { z: result == 0, ..*old(self) }),
    {
        self.z = result == 0;
    }

    /// Sets the Z flag if and only if the 16-bit `result` is zero.
    pub fn set_z_flag_from_u16(&mut self, result: u16)
        ensures
            *final(self) == (FlagsRegister { z: result == 0, ..*old(self) }),
    {
        self.z = result == 0;
    }

    /// Sets the N flag to the provided value.
    pub fn set_n_flag(&mut self, value: bool)
        ensures
            *final(self) == (FlagsRegister { n: value, ..*old(self) }),
    {
        self.n = value;
    }

    /// The C flag as 0 or 1, as added by the ADC instructions.
    pub fn get_c_flag_u8(&self) -> (v: u8)
        ensures
            v == (if self.c { 1u8 } else { 0u8 }),
    {
        if self.c {
            1
        } else {
            0
        }
    }

    /// Sets the H flag to the provided value.
    pub fn set_h_flag(&mut self, h_flag: bool)
        ensures
            *final(self) == (FlagsRegister { h: h_flag, ..*old(self) }),
    {
        self.h = h_flag;
    }

    /// Returns the flags register as a byte: bit 7 Z, bit 6 N, bit 5 H, bit 4 C, bits 3-0 zero.
    pub fn get_flags_as_u8(&self) -> (v: u8)
        ensures
            v == flags_byte(*self),
    {
        let mut value = 0u8;

        if self.z {
            value = value + 0b10000000;
        }
        if self.n {
            value = value + 0b01000000;
        }
        if self.h {
            value = value + 0b00100000;
        }
        if self.c {
            value = value + 0b00010000;
        }
        value
    }

    /// Sets the flags from bits 7 (Z), 6 (N), 5 (H) and 4 (C) of `value`.
    pub fn set_flags_from_u8(&mut self, value: u8)
        ensures
            *final(self) == flags_of_byte(value),
    {
        proof {
            lemma_bit_tests(value);
        }
        self.z = (value & 0b10000000) != 0;
        self.n = (value & 0b01000000) != 0;
        self.h = (value & 0b00100000) != 0;
        self.c = (value & 0b00010000) != 0;
    }
}

impl View for MemoryBus {
    type V = Seq<u8>;

    closed spec fn view(&self) -> Seq<u8> {
        self.memory@
    }
}

impl MemoryBus {
    /// The memory always holds exactly `MEMORY_SIZE` bytes.
    pub broadcast proof fn lemma_view_len(mb: MemoryBus)
        ensures
            #[trigger] mb@.len() == MEMORY_SIZE,
    {
        broadcast use vstd::array::group_array_axioms;

        assert(mb.memory@.len() == MEMORY_SIZE);
    }

    /// The byte stored at `address`.
    pub open spec fn spec_read(self, address: u16) -> u8 {
        self@[address as int]
    }

    /// The memory after storing `value` at `address`.
    pub closed spec fn spec_write(self, address: u16, value: u8) -> MemoryBus {
        MemoryBus { memory: vstd::array::spec_array_update(self.memory, address as int, value) }
    }

    /// Storing a byte changes the byte at that address and no other.
    pub broadcast proof fn lemma_spec_write(mb: MemoryBus, address: u16, value: u8)
        ensures
            #[trigger] mb.spec_write(address, value)@ == mb@.update(address as int, value),
    {
        broadcast use vstd::array::group_array_axioms;

    }

    /// Memory filled with zeros.
    pub fn new() -> (mb: Self)
        ensures
            mb@ == Seq::new(MEMORY_SIZE as nat, |i: int| 0u8),
    {
        broadcast use vstd::array::group_array_axioms;

        let mb = Self { memory: [0;MEMORY_SIZE] };
        assert(mb@ =~= Seq::new(MEMORY_SIZE as nat, |i: int| 0u8));
        mb
    }

    /// The byte at `address`.
    pub fn read_byte(&self, address: u16) -> (v: u8)
        ensures
            v == self.spec_read(address),
    {
        broadcast use vstd::array::group_array_axioms;

        self.memory[address as usize]
    }

    /// Stores `value` at `address`.
    pub fn write_byte(&mut self, address: u16, value: u8)
        ensures
            *final(self) == old(self).spec_write(address, value),
    {
        self.memory[address as usize] = value;
    }

    /// Copies the ROM image to the start of memory; the rest of memory is unchanged.
    pub fn copy_from_binary(&mut self, rom_binary: Vec<u8>)
        requires
            rom_binary.len() <= MEMORY_SIZE,
        ensures
            final(self)@ == rom_binary@ + old(self)@.subrange(rom_binary.len() as int, MEMORY_SIZE as int),
    {
        broadcast use vstd::array::group_array_axioms;

        let n = rom_binary.len();
        let mut i: usize = 0;
        while i < n
            invariant
                n == rom_binary.len(),
                n <= MEMORY_SIZE,
                i <= n,
                self.memory@.len() == MEMORY_SIZE,
                forall|j: int| 0 <= j < i ==> self.memory@[j] == rom_binary@[j],
                forall|j: int| i <= j < MEMORY_SIZE ==> self.memory@[j] == old(self).memory@[j],
            decreases n - i,
        {
            self.memory[i] = rom_binary[i];
            i = i + 1;
        }
        assert(self@ =~= rom_binary@ + old(self)@.subrange(n as int, MEMORY_SIZE as int));
    }

    /// The VRAM (Video RAM) region, addresses $8000-$9FFF.
    pub fn get_vram(&self) -> (s: &[u8])
        ensures
            s@ == self@.subrange(0x8000, 0xA000),
    {
        broadcast use vstd::array::group_array_axioms;

        vstd::slice::slice_subrange(self.memory.as_slice(), 0x8000, 0xA000)
    }

    /// The VRAM region, addresses $8000-$9FFF, for writing: what is written through the
    /// returned slice lands in VRAM and nowhere else.
    pub fn get_vram_mut(&mut self) -> (s: &mut [u8])
        ensures
            s@ == old(self)@.subrange(0x8000, 0xA000),
            final(self)@ == old(self)@.subrange(0, 0x8000) + final(s)@ + old(self)@.subrange(
                0xA000,
                0x10000,
            ),
    {
        broadcast use vstd::array::group_array_axioms;

        let all: &mut [u8] = &mut self.memory;
        let (_, upper) = all.split_at_mut(0x8000);
        let (vram, _) = upper.split_at_mut(0x2000);
        vram
    }

    /// The VRAM tile data region, addresses $8000-$97FF.
    pub fn get_vram_tile_data(&self) -> (s: &[u8])
        ensures
            s@ == self@.subrange(0x8000, 0x9800),
    {
        broadcast use vstd::array::group_array_axioms;

        vstd::slice::slice_subrange(self.memory.as_slice(), 0x8000, 0x9800)
    }

    /// The Object Attribute Memory region, addresses $FE00-$FE9F.
    pub fn get_object_attribute_memory(&self) -> (s: &[u8])
        ensures
            s@ == self@.subrange(0xFE00, 0xFEA0),
    {
        broadcast use vstd::array::group_array_axioms;

        vstd::slice::slice_subrange(self.memory.as_slice(), 0xFE00, 0xFEA0)
    }

    /// The LCD Control register (LCDC).
    pub fn get_lcdc_register(&self) -> (v: u8)
        ensures
            v == self.spec_read(LCDC),
    {
        self.read_byte(LCDC)
    }

    /// Writes the LCD Control register (LCDC).
    pub fn set_lcdc_register(&mut self, value: u8)
        ensures
            *final(self) == old(self).spec_write(LCDC, value),
    {
        self.write_byte(LCDC, value);
    }

    /// The background tile map area selected by the LCDC register: $9800-$9BFF or $9C00-$9FFF.
    pub fn get_bg_tile_map(&self, lcdc_register: &LcdcRegister) -> (s: &[u8])
        ensures
            s@ == self@.subrange(
                lcdc_register.spec_bg_tile_map_start() as int,
                lcdc_register.spec_bg_tile_map_start() + 0x400,
            ),
    {
        broadcast use vstd::array::group_array_axioms;

        let (start, end) = lcdc_register.get_bg_tiles_map_area_address_range();
        vstd::slice::slice_subrange(self.memory.as_slice(), start as usize, end as usize + 1)
    }

    /// The background vertical scroll register (SCY).
    pub fn get_scy_register(&self) -> (v: u8)
        ensures
            v == self.spec_read(SCY),
    {
        self.read_byte(SCY)
    }

    /// The background horizontal scroll register (SCX).
    pub fn get_scx_register(&self) -> (v: u8)
        ensures
            v == self.spec_read(SCX),
    {
        self.read_byte(SCX)
    }

    /// Writes the background vertical scroll register (SCY).
    pub fn set_scy_register(&mut self, value: u8)
        ensures
            *final(self) == old(self).spec_write(SCY, value),
    {
        self.write_byte(SCY, value);
    }

    /// Writes the background horizontal scroll register (SCX).
    pub fn set_scx_register(&mut self, value: u8)
        ensures
            *final(self) == old(self).spec_write(SCX, value),
    {
        self.write_byte(SCX, value);
    }

    /// Writes the background palette register (BGP).
    pub fn set_bgp_register(&mut self, value: u8)
        ensures
            *final(self) == old(self).spec_write(BGP, value),
    {
        self.write_byte(BGP, value);
    }

    /// The Divider Register (DIV), incremented every 256 CPU cycles.
    pub fn get_div_register(&self) -> (v: u8)
        ensures
            v == self.spec_read(DIV),
    {
        self.read_byte(DIV)
    }

    /// The Timer Modulo register (TMA), reloaded into TIMA when TIMA overflows.
    pub fn get_tma_register(&self) -> (v: u8)
        ensures
            v == self.spec_read(TMA),
    {
        self.read_byte(TMA)
    }

    /// The Timer Control register (TAC).
    pub fn get_tac_register(&self) -> (v: u8)
        ensures
            v == self.spec_read(TAC),
    {
        self.read_byte(TAC)
    }

    /// The Timer Counter register (TIMA).
    pub fn get_tima_register(&self) -> (v: u8)
        ensures
            v == self.spec_read(TIMA),
    {
        self.read_byte(TIMA)
    }

    /// Writes the Divider Register (DIV).
    pub fn set_div_register(&mut self, value: u8)
        ensures
            *final(self) == old(self).spec_write(DIV, value),
    {
        self.write_byte(DIV, value);
    }

    /// Writes the Timer Counter register (TIMA).
    pub fn set_tima_register(&mut self, value: u8)
        ensures
            *final(self) == old(self).spec_write(TIMA, value),
    {
        self.write_byte(TIMA, value);
    }

    /// Sets (`value` true) or clears the request bit of an interrupt in the IF register.
    pub fn update_flag_in_if_register(&mut self, interrupt_type: InterruptType, value: bool)
        ensures
            *final(self) == old(self).spec_write(
                IF,
                if value {
                    old(self).spec_read(IF) | interrupt_type.spec_mask()
                } else {
                    old(self).spec_read(IF) & interrupt_type.spec_clear_mask()
                },
            ),
    {
        let mut if_register = self.read_byte(IF);
        if value {
            match interrupt_type {
                InterruptType::VBlank => if_register |= 0b00000001,
                InterruptType::LCD => if_register |= 0b00000010,
                InterruptType::Timer => if_register |= 0b00000100,
                InterruptType::Serial => if_register |= 0b00001000,
                InterruptType::Joypad => if_register |= 0b00010000,
            }
        } else {
            match interrupt_type {
                InterruptType::VBlank => if_register &= 0b11111110,
                InterruptType::LCD => if_register &= 0b11111101,
                InterruptType::Timer => if_register &= 0b11111011,
                InterruptType::Serial => if_register &= 0b11110111,
                InterruptType::Joypad => if_register &= 0b11101111,
            }
        }
        self.write_byte(IF, if_register);
    }
}

} // verus!
