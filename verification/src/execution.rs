use vstd::prelude::*;

use crate::bits::{lemma_opcode_fields, lemma_opcode_masks, with_bit_cleared, with_bit_set};
use crate::cpu::{add16, Cpu};
use crate::cpu_components::{FlagsRegister, MemoryBus};
use crate::instructions::arith8::{alu_operation_of, AluOperation};
use crate::instructions::misc::spec_daa;
use crate::instructions::rotate_shift::{shift_operation_of, ShiftOperation};

verus! {

broadcast use MemoryBus::lemma_view_len, MemoryBus::lemma_spec_write;

/// The opcodes that the emulator does not implement: RETI (0xD9) and the undefined opcodes
/// 0xD3, 0xDB, 0xDD, 0xEB and 0xFD (0xE3 and 0xED run as NOP). Executing one changes nothing.
pub open spec fn spec_unimplemented_opcode(opcode: u8) -> bool {
    opcode == 0xD3 || opcode == 0xD9 || opcode == 0xDB || opcode == 0xDD || opcode == 0xEB
        || opcode == 0xFD
}

/// Whether the emulator leaves `opcode` unimplemented (see `spec_unimplemented_opcode`).
pub fn is_unimplemented_opcode(opcode: u8) -> (b: bool)
    ensures
        b == spec_unimplemented_opcode(opcode),
{
    opcode == 0xD3 || opcode == 0xD9 || opcode == 0xDB || opcode == 0xDD || opcode == 0xEB
        || opcode == 0xFD
}

impl Cpu {
    /// Whether executing `opcode` reads and writes only within the address space: a 16-bit
    /// immediate must not start at 0xFFFF, and the address that LD (nn), SP stores to must not
    /// be 0xFFFF. Conditional jumps and calls read their immediate only when taken.
    pub open spec fn spec_operands_addressable(self, opcode: u8) -> bool {
        let pc_ok = self.registers.pc < 0xFFFF;
        let x = opcode / 64;
        let z = opcode % 8;
        if opcode == 0x01 || opcode == 0x11 || opcode == 0x21 || opcode == 0x31 || opcode == 0xC3
            || opcode == 0xCD || opcode == 0xEA || opcode == 0xFA {
            pc_ok
        } else if opcode == 0x08 {
            pc_ok && self.spec_imm16() < 0xFFFF
        } else if opcode == 0xC2 || opcode == 0xCA || opcode == 0xD2 || opcode == 0xDA || (x == 3
            && z == 4) {
            self.spec_condition(opcode) ==> pc_ok
        } else {
            true
        }
    }

    /// The CPU after executing `opcode` (PC already past it) from the block 0x00-0x3F: loads of
    /// immediates and through register pairs, 8- and 16-bit increments and decrements, 16-bit
    /// additions to HL, rotates of A, relative jumps, DAA, CPL, SCF, CCF, NOP and STOP.
    pub open spec fn spec_execute_block0(self, opcode: u8) -> Cpu {
        let y = (opcode / 8) % 8;
        let z = opcode % 8;
        if z == 0 {
            if y == 0 {
                self.add_cycles(4)
            } else if y == 1 {
                self.spec_ld_imm16_sp()
            } else if y == 2 {
                self.add_cycles(4)
            } else if y == 3 {
                self.spec_jr_imm8()
            } else if self.spec_jr_condition(opcode) {
                self.spec_jr_imm8()
            } else {
                self
            }
        } else if z == 1 {
            if y % 2 == 0 {
                self.spec_ld_r16_imm16(opcode)
            } else {
                self.spec_add_hl_r16(opcode)
            }
        } else if z == 2 {
            let bc = self.registers.spec_bc();
            let de = self.registers.spec_de();
            let hl = self.registers.spec_hl();
            if y == 0 {
                self.spec_store_a(bc)
            } else if y == 1 {
                self.spec_load_a(bc)
            } else if y == 2 {
                self.spec_store_a(de)
            } else if y == 3 {
                self.spec_load_a(de)
            } else if y == 4 {
                self.spec_store_a(hl).set_hl(add16(hl, 1))
            } else if y == 5 {
                self.spec_load_a(hl).set_hl(add16(hl, 1))
            } else if y == 6 {
                self.spec_store_a(hl).set_hl(add16(hl, -1))
            } else {
                self.spec_load_a(hl).set_hl(add16(hl, -1))
            }
        } else if z == 3 {
            if y % 2 == 0 {
                self.spec_inc_r16(opcode)
            } else {
                self.spec_dec_r16(opcode)
            }
        } else if z == 4 {
            if y == 6 {
                self.spec_inc_hl()
            } else {
                self.spec_inc_r(opcode)
            }
        } else if z == 5 {
            if y == 6 {
                self.spec_dec_hl()
            } else {
                self.spec_dec_r(opcode)
            }
        } else if z == 6 {
            if y == 6 {
                self.spec_ld_hl_imm8()
            } else {
                self.spec_ld_r8_imm8(opcode)
            }
        } else {
            let a = self.registers.a;
            let f = self.registers.flags;
            if y == 0 {
                self.spec_rotate_a(ShiftOperation::Rlc)
            } else if y == 1 {
                self.spec_rotate_a(ShiftOperation::Rrc)
            } else if y == 2 {
                self.spec_rotate_a(ShiftOperation::Rl)
            } else if y == 3 {
                self.spec_rotate_a(ShiftOperation::Rr)
            } else if y == 4 {
                self.set_a(spec_daa(a, f).0).set_flags(spec_daa(a, f).1).add_cycles(4)
            } else if y == 5 {
                self.set_a(!a).set_flags(FlagsRegister { n: true, h: true, ..f }).add_cycles(4)
            } else if y == 6 {
                self.set_flags(FlagsRegister { c: true, h: false, n: false, ..f }).add_cycles(4)
            } else {
                self.set_flags(FlagsRegister { c: !f.c, h: false, n: false, ..f }).add_cycles(4)
            }
        }
    }

    /// The CPU after executing `opcode` (PC already past it) from the block 0x40-0x7F: the 8-bit
    /// loads between registers and (HL), and HALT.
    pub open spec fn spec_execute_block1(self, opcode: u8) -> Cpu {
        let y = (opcode / 8) % 8;
        let z = opcode % 8;
        if opcode == 0x76 {
            self.add_cycles(4)
        } else if z == 6 {
            self.spec_ld_r8_hl(opcode)
        } else if y == 6 {
            self.spec_ld_hl_r8(opcode)
        } else {
            self.spec_ld_r8_r8(opcode)
        }
    }

    /// The CPU after executing `opcode` (PC already past it) from the block 0x80-0xBF: the
    /// 8-bit arithmetic and logical operations on A with a register or (HL).
    pub open spec fn spec_execute_block2(self, opcode: u8) -> Cpu {
        let y = (opcode / 8) % 8;
        let operation = alu_operation_of(y as int);
        if opcode % 8 != 6 {
            self.spec_alu(operation, self.spec_source_value(opcode)).add_cycles(4)
        } else if y == 1 {
            self.spec_alu(operation, self.spec_at_hl())
        } else {
            self.spec_alu(operation, self.spec_at_hl()).add_cycles(8)
        }
    }

    /// The CPU after executing `opcode` (PC already past it) from the block 0xC0-0xFF:
    /// returns, POP, PUSH, jumps, calls and restarts, loads to and from high memory and through
    /// an immediate address, operations on SP, arithmetic and logical operations with an
    /// immediate, the CB prefix, DI and EI.
    pub open spec fn spec_execute_block3(self, opcode: u8) -> Cpu {
        let y = (opcode / 8) % 8;
        let z = opcode % 8;
        if z == 0 {
            if y < 4 {
                if self.spec_condition(opcode) {
                    self.spec_ret()
                } else {
                    self
                }
            } else if y == 4 {
                self.spec_store_a(Self::high_address(self.spec_imm8())).advance_pc(1)
            } else if y == 5 {
                self.spec_add_sp_imm8()
            } else if y == 6 {
                self.spec_load_a(Self::high_address(self.spec_imm8())).advance_pc(1)
            } else {
                self.spec_ld_hl_sp_imm8()
            }
        } else if z == 1 {
            if y % 2 == 0 {
                self.spec_pop_r16(opcode)
            } else if y == 1 {
                self.spec_ret()
            } else if y == 5 {
                self.set_pc(self.registers.spec_hl()).add_cycles(4)
            } else if y == 7 {
                self.set_sp(self.registers.spec_hl())
            } else {
                self
            }
        } else if z == 2 {
            if y < 4 {
                if self.spec_condition(opcode) {
                    self.spec_jp_imm16()
                } else {
                    self.advance_pc(2).add_cycles(12)
                }
            } else if y == 4 {
                self.spec_store_a(Self::high_address(self.registers.c))
            } else if y == 5 {
                self.spec_store_a(self.spec_imm16()).advance_pc(2)
            } else if y == 6 {
                self.spec_load_a(Self::high_address(self.registers.c))
            } else {
                self.spec_load_a(self.spec_imm16()).advance_pc(2)
            }
        } else if z == 3 {
            if y == 0 {
                self.spec_jp_imm16()
            } else if y == 1 {
                self.spec_execute_cb()
            } else if y == 4 {
                self.add_cycles(4)
            } else if y == 6 {
                (Cpu { di_instruction_pending: true, ..self }).add_cycles(4)
            } else if y == 7 {
                (Cpu { ei_instruction_pending: true, ..self }).add_cycles(4)
            } else {
                self
            }
        } else if z == 4 {
            if self.spec_condition(opcode) {
                self.spec_call_imm16()
            } else {
                self.advance_pc(2)
            }
        } else if z == 5 {
            if y % 2 == 0 {
                self.spec_push(self.spec_stack_r16(opcode))
            } else if y == 1 {
                self.spec_call_imm16()
            } else if y == 5 {
                self.add_cycles(4)
            } else {
                self
            }
        } else if z == 6 {
            self.spec_alu(alu_operation_of(y as int), self.spec_imm8()).advance_pc(1).add_cycles(8)
        } else {
            self.spec_rst(opcode)
        }
    }

    /// The CPU after executing `opcode`, with PC already past the opcode byte. Opcodes that the
    /// emulator does not implement change nothing.
    pub open spec fn spec_execute(self, opcode: u8) -> Cpu {
        let x = opcode / 64;
        if x == 0 {
            self.spec_execute_block0(opcode)
        } else if x == 1 {
            self.spec_execute_block1(opcode)
        } else if x == 2 {
            self.spec_execute_block2(opcode)
        } else {
            self.spec_execute_block3(opcode)
        }
    }

    /// The CPU after a CB-prefixed instruction: the second opcode byte is read at PC and PC
    /// moves past it before the operation it encodes is performed.
    pub open spec fn spec_execute_cb(self) -> Cpu {
        self.advance_pc(1).spec_cb_operation(self.spec_imm8())
    }

    /// The CPU after the operation of the CB-prefixed opcode `cb`: bits 7-6 select
    /// rotate/shift, BIT, RES or SET; bits 5-3 the operation or bit; bits 2-0 the register,
    /// 6 standing for (HL).
    #[verifier::opaque]
    pub open spec fn spec_cb_operation(self, cb: u8) -> Cpu {
        let s = self;
        let x = cb / 64;
        let b = Self::spec_bit_index(cb);
        let r = cb % 8;
        let hl = s.registers.spec_hl();
        if x == 0 {
            if r == 6 {
                s.spec_shift_hl(shift_operation_of(b as int))
            } else {
                s.spec_shift_r8(shift_operation_of(b as int), cb)
            }
        } else if x == 1 {
            if r == 6 {
                s.set_flags(s.spec_bit_flags(s.spec_at_hl(), cb))
            } else {
                s.set_flags(s.spec_bit_flags(s.registers.spec_get_8bit(r), cb))
            }
        } else if x == 2 {
            if r == 6 {
                s.set_mem(hl, with_bit_cleared(s.spec_at_hl(), b))
            } else {
                s.set_regs(
                    s.registers.spec_set_8bit(r, with_bit_cleared(s.registers.spec_get_8bit(r), b)),
                )
            }
        } else {
            if r == 6 {
                s.set_mem(hl, with_bit_set(s.spec_at_hl(), b))
            } else {
                s.set_regs(
                    s.registers.spec_set_8bit(r, with_bit_set(s.registers.spec_get_8bit(r), b)),
                )
            }
        }
    }

    /// Executes a CB-prefixed instruction: reads the second opcode byte at PC, moves PC past it
    /// and performs the rotate, shift or bit operation it encodes.
    #[verifier::spinoff_prover]
    #[verifier::rlimit(40)]
    pub fn execute_cb_prefix_instructions(&mut self)
        ensures
            *final(self) == old(self).spec_execute_cb(),
    {
        let cb_opcode = self.fetch_opcode();
        self.registers.increment_pc();
        proof {
            lemma_opcode_masks(cb_opcode);
            lemma_opcode_fields(cb_opcode);
        }
        assert(old(self).spec_execute_cb() == self.spec_cb_operation(cb_opcode));
        reveal(Cpu::spec_cb_operation);

        match cb_opcode {
            v if (v & 0b11111000) == 0b00000000 && Cpu::source_is_8bit_register(cb_opcode) => {
                self.rlc_r8(cb_opcode)
            },
            0b00000110 => self.rlc_hl(),
            v if (v & 0b11111000) == 0b00010000 && Cpu::source_is_8bit_register(cb_opcode) => {
                self.rl_r8(cb_opcode)
            },
            0b00010110 => self.rl_hl(),
            v if (v & 0b11111000) == 0b00001000 && Cpu::source_is_8bit_register(cb_opcode) => {
                self.rrc_r8(cb_opcode)
            },
            0b00001110 => self.rrc_hl(),
            v if (v & 0b11111000) == 0b00011000 && Cpu::source_is_8bit_register(cb_opcode) => {
                self.rr_r8(cb_opcode)
            },
            0b00011110 => self.rr_hl(),
            v if (v & 0b11111000) == 0b00100000 && Cpu::source_is_8bit_register(cb_opcode) => {
                self.sla_r8(cb_opcode)
            },
            0b00100110 => self.sla_hl(),
            v if (v & 0b11111000) == 0b00101000 && Cpu::source_is_8bit_register(cb_opcode) => {
                self.sra_r8(cb_opcode)
            },
            0b00101110 => self.sra_hl(),
            v if (v & 0b11111000) == 0b00111000 && Cpu::source_is_8bit_register(cb_opcode) => {
                self.srl_r8(cb_opcode)
            },
            0b00111110 => self.srl_hl(),
            v if (v & 0b11111000) == 0b00110000 && Cpu::source_is_8bit_register(cb_opcode) => {
                self.swap_r8(cb_opcode)
            },
            0b00110110 => self.swap_hl(),
            v if (v & 0b11000000) == 0b01000000 && Cpu::source_is_8bit_register(cb_opcode) => {
                self.bit_b_r8(cb_opcode)
            },
            v if (v & 0b11000111) == 0b01000110 => self.bit_b_hl(cb_opcode),
            v if (v & 0b11000000) == 0b11000000 && Cpu::source_is_8bit_register(cb_opcode) => {
                self.set_b_r8(cb_opcode)
            },
            v if (v & 0b11000111) == 0b11000110 => self.set_b_hl(cb_opcode),
            v if (v & 0b11000000) == 0b10000000 && Cpu::source_is_8bit_register(cb_opcode) => {
                self.reset_b_r8(cb_opcode)
            },
            _ => self.reset_b_hl(cb_opcode),
        }
    }
    /// Executes an instruction of the block 0x00-0x3F: loads of immediates and through register
    /// pairs, 8- and 16-bit increments and decrements, 16-bit additions to HL, rotates of A,
    /// relative jumps, DAA, CPL, SCF, CCF and STOP.
    #[verifier::spinoff_prover]
    #[verifier::rlimit(80)]
    fn execute_block0(&mut self, opcode: u8)
        requires
            opcode / 64 == 0,
            old(self).spec_operands_addressable(opcode),
        ensures
            *final(self) == old(self).spec_execute_block0(opcode),
    {
        proof {
            lemma_opcode_masks(opcode);
            lemma_opcode_fields(opcode);
        }
        match opcode {
            0x00 => self.nop(),
            v if (v & 0b11000111) == 0b00000110 && Cpu::destination_is_8bit_register(opcode) => {
                self.ld_r8_imm8(opcode)
            },
            0b00110110 => self.ld_hl_imm8(),
            0b00001010 => self.ld_a_bc(),
            0b00011010 => self.ld_a_de(),
            0b00101010 => self.ld_a_hli(),
            0b00111010 => self.ld_a_hld(),
            0b00000010 => self.ld_bc_a(),
            0b00010010 => self.ld_de_a(),
            0b00100010 => self.ld_hli_a(),
            0b00110010 => self.ld_hld_a(),
            v if (v & 0b11000111) == 0b00000100 && Cpu::destination_is_8bit_register(opcode) => {
                self.inc_r(opcode)
            },
            0b00110100 => self.inc_hl(),
            v if (v & 0b11000111) == 0b00000101 && Cpu::destination_is_8bit_register(opcode) => {
                self.dec_r(opcode)
            },
            0b00110101 => self.dec_hl(),
            v if (v & 0b11001111) == 0b00000001 && Cpu::destination_is_16bit_register(opcode) => {
                self.ld_r16_imm16(opcode)
            },
            0b00001000 => self.ld_imm16_sp(),
            v if (v & 0b11001111) == 0b00001001 && Cpu::destination_is_16bit_register(opcode) => {
                self.add_hl_r16(opcode)
            },
            v if (v & 0b11001111) == 0b00000011 && Cpu::destination_is_16bit_register(opcode) => {
                self.inc_r16(opcode)
            },
            v if (v & 0b11001111) == 0b00001011 && Cpu::destination_is_16bit_register(opcode) => {
                self.dec_r16(opcode)
            },
            0b00000111 => self.rlca(),
            0b00010111 => self.rla(),
            0b00001111 => self.rrca(),
            0b00011111 => self.rra(),
            0b00011000 => self.jr_imm8(),
            0x20 | 0x28 | 0x30 | 0x38 => self.jr_cc_imm8(opcode),
            0x27 => self.daa(),
            0x2F => self.cpl(),
            0x37 => self.scf(),
            0x3F => self.ccf(),
            0x10 => self.stop(),
            _ => {},
        }
    }

    /// Executes an instruction of the block 0x40-0x7F: loads between registers and (HL), and
    /// HALT.
    #[verifier::spinoff_prover]
    #[verifier::rlimit(80)]
    fn execute_block1(&mut self, opcode: u8)
        requires
            opcode / 64 == 1,
            old(self).spec_operands_addressable(opcode),
        ensures
            *final(self) == old(self).spec_execute_block1(opcode),
    {
        proof {
            lemma_opcode_masks(opcode);
            lemma_opcode_fields(opcode);
        }
        match opcode {
            0b01110110 => self.halt(),
            v if (v & 0b11000111) == 0b01000110 && Cpu::destination_is_8bit_register(opcode) => {
                self.ld_r8_hl(opcode)
            },
            v if (v & 0b11111000) == 0b01110000 && Cpu::source_is_8bit_register(opcode) => {
                self.ld_hl_r8(opcode)
            },
            v if (v & 0b11000000) == 0b01000000 && Cpu::source_is_8bit_register(opcode)
                && Cpu::destination_is_8bit_register(opcode) => self.ld_r8_r8(opcode),
            _ => {},
        }
    }

    /// Executes an instruction of the block 0x80-0xBF: arithmetic and logical operations on A
    /// with a register or (HL).
    #[verifier::spinoff_prover]
    #[verifier::rlimit(80)]
    fn execute_block2(&mut self, opcode: u8)
        requires
            opcode / 64 == 2,
            old(self).spec_operands_addressable(opcode),
        ensures
            *final(self) == old(self).spec_execute_block2(opcode),
    {
        proof {
            lemma_opcode_masks(opcode);
            lemma_opcode_fields(opcode);
        }
        match opcode {
            v if (v >> 3u8) == 0b10000 && Cpu::source_is_8bit_register(opcode) => self.add_a_r(
                opcode,
            ),
            0b10000110 => self.add_a_hl(),
            v if (v >> 3u8) == 0b10001 && Cpu::source_is_8bit_register(opcode) => self.adc_a_r(
                opcode,
            ),
            0b10001110 => self.adc_a_hl(),
            v if (v >> 3u8) == 0b10010 && Cpu::source_is_8bit_register(opcode) => self.sub_a_r(
                opcode,
            ),
            0b10010110 => self.sub_a_hl(),
            v if (v >> 3u8) == 0b10011 && Cpu::source_is_8bit_register(opcode) => self.sbc_a_r(
                opcode,
            ),
            0b10011110 => self.sbc_a_hl(),
            v if (v >> 3u8) == 0b10100 && Cpu::source_is_8bit_register(opcode) => self.and_a_r(
                opcode,
            ),
            0b10100110 => self.and_a_hl(),
            v if (v >> 3u8) == 0b10110 && Cpu::source_is_8bit_register(opcode) => self.or_a_r(
                opcode,
            ),
            0b10110110 => self.or_a_hl(),
            v if (v >> 3u8) == 0b10101 && Cpu::source_is_8bit_register(opcode) => self.xor_a_r(
                opcode,
            ),
            0b10101110 => self.xor_a_hl(),
            v if (v >> 3u8) == 0b10111 && Cpu::source_is_8bit_register(opcode) => self.cp_a_r(
                opcode,
            ),
            0b10111110 => self.cp_a_hl(),
            _ => {},
        }
    }

    /// Executes an instruction of the block 0xC0-0xFF whose low three bits are 0-3: returns,
    /// POP, loads to and from high memory and through an immediate address, JP, the CB prefix,
    /// DI and EI.
    #[verifier::spinoff_prover]
    #[verifier::rlimit(80)]
    fn execute_block3_columns_0_to_3(&mut self, opcode: u8)
        requires
            opcode / 64 == 3,
            opcode % 8 < 4,
            old(self).spec_operands_addressable(opcode),
        ensures
            *final(self) == old(self).spec_execute_block3(opcode),
    {
        proof {
            lemma_opcode_masks(opcode);
            lemma_opcode_fields(opcode);
        }
        match opcode {
            0xE3 => self.nop(),
            0b11110010 => self.ld_a_c(),
            0b11100010 => self.ld_c_a(),
            0b11110000 => self.ld_a_imm8(),
            0b11100000 => self.ld_imm8_a(),
            0b11111010 => self.ld_a_imm16(),
            0b11101010 => self.ld_imm16_a(),
            0b11111001 => self.ld_sp_hl(),
            v if (v & 0b11001111) == 0b11000001 && Cpu::destination_is_16bit_register(opcode) => {
                self.pop_r16_from_memory_stack(opcode)
            },
            0b11111000 => self.ld_hl_sp_imm8(),
            0b11101000 => self.add_sp_imm8(),
            0b11000011 => self.jp_imm16(),
            0xC2 | 0xCA | 0xD2 | 0xDA => self.jp_cc_imm16(opcode),
            0b11101001 => self.jp_hl(),
            0b11001001 => self.ret(),
            0xC0 | 0xC8 | 0xD0 | 0xD8 => self.ret_cc(opcode),
            0xCB => self.execute_cb_prefix_instructions(),
            0xF3 => self.di(),
            0xFB => self.ei(),
            _ => {},
        }
    }

    /// Executes an instruction of the block 0xC0-0xFF whose low three bits are 4-7: calls, PUSH,
    /// arithmetic and logical operations with an immediate, and restarts.
    #[verifier::spinoff_prover]
    #[verifier::rlimit(80)]
    fn execute_block3_columns_4_to_7(&mut self, opcode: u8)
        requires
            opcode / 64 == 3,
            opcode % 8 >= 4,
            old(self).spec_operands_addressable(opcode),
        ensures
            *final(self) == old(self).spec_execute_block3(opcode),
    {
        proof {
            lemma_opcode_masks(opcode);
            lemma_opcode_fields(opcode);
        }
        match opcode {
            0xED => self.nop(),
            0b11000110 => self.add_a_n(),
            0b11001110 => self.adc_a_imm8(),
            0b11010110 => self.sub_a_imm8(),
            0b11011110 => self.sbc_a_imm8(),
            0b11100110 => self.and_a_imm8(),
            0b11110110 => self.or_a_imm8(),
            0b11101110 => self.xor_a_imm8(),
            0b11111110 => self.cp_a_imm8(),
            v if (v & 0b11001111) == 0b11000101 && Cpu::destination_is_16bit_register(opcode) => {
                self.push_r16_onto_memory_stack(opcode)
            },
            0b11001101 => self.call_imm16(),
            v if (v & 0b11000111) == 0b11000100 => self.call_cc_imm16(opcode),
            v if (v & 0b11000111) == 0b11000111 => self.rst(opcode),
            _ => {},
        }
    }

    /// Executes an instruction of the block 0xC0-0xFF: arithmetic and logical operations with
    /// an immediate, loads to and from high memory, stack, jump, call, return and restart
    /// instructions, the CB prefix, DI and EI.
    fn execute_block3(&mut self, opcode: u8)
        requires
            opcode / 64 == 3,
            old(self).spec_operands_addressable(opcode),
        ensures
            *final(self) == old(self).spec_execute_block3(opcode),
    {
        proof {
            lemma_opcode_fields(opcode);
        }
        if opcode & 0b111 < 4 {
            self.execute_block3_columns_0_to_3(opcode)
        } else {
            self.execute_block3_columns_4_to_7(opcode)
        }
    }

    /// Executes the instruction `opcode`; PC already points past the opcode byte. Operands are
    /// read at PC and PC moves past them. Opcodes that the emulator does not implement change
    /// nothing. The opcode table is split in four blocks by bits 7-6.
    pub fn execute(&mut self, opcode: u8)
        requires
            old(self).spec_operands_addressable(opcode),
        ensures
            *final(self) == old(self).spec_execute(opcode),
    {
        proof {
            lemma_opcode_masks(opcode);
        }
        match opcode >> 6u8 {
            0 => self.execute_block0(opcode),
            1 => self.execute_block1(opcode),
            2 => self.execute_block2(opcode),
            _ => self.execute_block3(opcode),
        }
    }
    /// The CPU after one tick: the opcode at PC is fetched, PC moves past it, the instruction
    /// is executed, and a pending DI takes effect unless the instruction was the DI itself.
    pub open spec fn spec_tick(self) -> Cpu {
        let opcode = self.spec_imm8();
        self.advance_pc(1).spec_execute(opcode).spec_after_di(opcode)
    }

    /// Performs one CPU tick: fetches the opcode at PC, moves PC past it, executes the
    /// instruction and then applies a pending DI.
    pub fn tick(&mut self)
        requires
            old(self).advance_pc(1).spec_operands_addressable(old(self).spec_imm8()),
        ensures
            *final(self) == old(self).spec_tick(),
            old(self).spec_imm8() == 0xF3 ==> final(self).di_instruction_pending && final(self).ime
                == old(self).ime,
            old(self).spec_imm8() != 0xF3 ==> !final(self).di_instruction_pending,
            old(self).spec_imm8() != 0xF3 && old(self).di_instruction_pending ==> !final(self).ime,
            old(self).spec_imm8() != 0xF3 && !old(self).di_instruction_pending ==> final(self).ime
                == old(self).ime,
    {
        proof {
            crate::laws::law_tick_ime(*old(self));
        }
        let opcode = self.fetch_opcode();
        self.registers.increment_pc();
        self.execute(opcode);
        self.disable_ime_if_di_instruction_pending(opcode);
    }

    /// Whether the instruction at PC has its operands within the address space (see
    /// `spec_operands_addressable`), which `tick` requires.
    pub fn can_tick(&self) -> (b: bool)
        ensures
            b == self.advance_pc(1).spec_operands_addressable(self.spec_imm8()),
    {
        let opcode = self.fetch_opcode();
        let pc = self.registers.pc.wrapping_add(1);
        let x = opcode / 64;
        let z = opcode % 8;
        if opcode == 0x01 || opcode == 0x11 || opcode == 0x21 || opcode == 0x31 || opcode == 0xC3
            || opcode == 0xCD || opcode == 0xEA || opcode == 0xFA {
            pc < 0xFFFF
        } else if opcode == 0x08 {
            pc < 0xFFFF && self.memory_bus.read_byte(pc) as u16 + self.memory_bus.read_byte(pc + 1)
                as u16 * 256 < 0xFFFF
        } else if opcode == 0xC2 || opcode == 0xCA || opcode == 0xD2 || opcode == 0xDA || (x == 3
            && z == 4) {
            !self.check_cc_condition(opcode) || pc < 0xFFFF
        } else {
            true
        }
    }
}

} // verus!
