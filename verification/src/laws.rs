use vstd::prelude::*;

use crate::bits::{bit_of, hi_byte, lo_byte, with_bit_cleared, with_bit_set, word};
use crate::constants::spec_color;
use crate::cpu::{add16, signed, Cpu};
use crate::cpu_components::{
    flags_byte, flags_of_byte, is_8bit_register_code, CpuRegisters, FlagsRegister, MemoryBus,
};
use crate::execution::spec_unimplemented_opcode;
use crate::instructions::arith8::{alu_operation_of, spec_add, spec_sub, AluOperation};
use crate::instructions::misc::spec_daa;
use crate::instructions::rotate_shift::{spec_shift_carry, spec_shift_result, ShiftOperation};
use crate::interrupts::{InterruptType, InterruptsHandler};
use crate::ppu::{
    spec_after_lyc_compare, spec_ends_line, spec_next_line, spec_pixel_index, spec_screen_pixel,
    spec_state_memory, spec_tile_pixel, spec_with_mode, Object, Ppu, PpuMode, LY_MAX_LINES,
    T_CYCLES_PER_SCANLINE,
};
use crate::ppu_components::LcdcRegister;
use crate::registers_constants::{IF, LY, STAT, TAC, TIMA};
use crate::screen::{
    game_area_len, tile_slot, tile_view_color, tile_view_start_col, TOTAL_WINDOW_HEIGHT,
    TOTAL_WINDOW_WIDTH,
};
use crate::timer::{spec_tima_threshold, Timer};

verus! {

broadcast use MemoryBus::lemma_view_len, MemoryBus::lemma_spec_write;

/// Joining the high and low bytes of a 16-bit value gives the value back.
proof fn lemma_word_of_bytes(v: u16)
    ensures
        word(hi_byte(v), lo_byte(v)) == v,
{
}

/// Reading an address right after a byte was written there gives that byte; every other
/// address keeps its byte.
pub proof fn law_read_after_write(memory: MemoryBus, address: u16, value: u8, other: u16)
    ensures
        memory.spec_write(address, value).spec_read(address) == value,
        other != address ==> memory.spec_write(address, value).spec_read(other) == memory.spec_read(
            other,
        ),
{
}

/// A pop right after a push gives the pushed value back and restores SP.
pub proof fn law_pop_after_push(cpu: Cpu, value: u16)
    ensures
        cpu.spec_push(value).spec_top_of_stack() == value,
        cpu.spec_push(value).spec_pop().registers.sp == cpu.registers.sp,
{
    lemma_word_of_bytes(value);
    let sp = cpu.registers.sp;
    assert(add16(add16(sp, -2), 1) == add16(sp, -1));
    assert(add16(add16(sp, -2), 2) == sp);
}

/// A RET right after a CALL resumes at the instruction that follows the CALL (after its two
/// operand bytes), with SP restored.
pub proof fn law_ret_after_call(cpu: Cpu)
    ensures
        cpu.spec_call_imm16().spec_ret().registers.pc == add16(cpu.registers.pc, 2),
        cpu.spec_call_imm16().spec_ret().registers.sp == cpu.registers.sp,
{
    law_pop_after_push(cpu, add16(cpu.registers.pc, 2));
}

/// A RET right after an RST resumes at the address the RST was executed from, with SP
/// restored.
pub proof fn law_ret_after_rst(cpu: Cpu, opcode: u8)
    ensures
        cpu.spec_rst(opcode).spec_ret().registers.pc == cpu.registers.pc,
        cpu.spec_rst(opcode).spec_ret().registers.sp == cpu.registers.sp,
{
    law_pop_after_push(cpu, cpu.registers.pc);
}

/// The flags survive a round trip through their byte form, and a byte written to the flags
/// reads back with its low nibble cleared.
pub proof fn law_flags_byte_round_trip(flags: FlagsRegister, value: u8)
    ensures
        flags_of_byte(flags_byte(flags)) == flags,
        flags_byte(flags_of_byte(value)) == value - value % 16,
{
}

/// A register pair reads back the value written to it; AF reads back with the low nibble
/// of F cleared.
pub proof fn law_register_pairs(registers: CpuRegisters, value: u16)
    ensures
        registers.with_bc(value).spec_bc() == value,
        registers.with_de(value).spec_de() == value,
        registers.with_hl(value).spec_hl() == value,
        registers.with_af(value).spec_af() == value - value % 16,
{
    lemma_word_of_bytes(value);
    law_flags_byte_round_trip(registers.flags, lo_byte(value));
}

/// An 8-bit register reads back the value written to it, and writing it leaves the other
/// registers unchanged.
pub proof fn law_8bit_registers(registers: CpuRegisters, register: u8, other: u8, value: u8)
    requires
        is_8bit_register_code(register),
        is_8bit_register_code(other),
        other != register,
    ensures
        registers.spec_set_8bit(register, value).spec_get_8bit(register) == value,
        registers.spec_set_8bit(register, value).spec_get_8bit(other) == registers.spec_get_8bit(
            other,
        ),
{
}

/// INC rr followed by DEC rr on the same register pair (BC, DE, HL or SP) gives back the CPU
/// it started from.
pub proof fn law_inc_then_dec_r16(cpu: Cpu, pair: u8)
    requires
        pair < 4,
    ensures
        cpu.spec_inc_r16((0x03 + 16 * pair) as u8).spec_dec_r16((0x0B + 16 * pair) as u8) == cpu,
{
    let r = pair;
    assert((((0x03 + 16 * pair) as u8) / 16) % 4 == r);
    assert((((0x0B + 16 * pair) as u8) / 16) % 4 == r);
    let v = cpu.spec_r16(r);
    assert(add16(add16(v, 1), -1) == v);
    lemma_word_of_bytes(v);
    if r == 0 {
        assert(cpu.registers.with_bc(v) == cpu.registers);
    } else if r == 1 {
        assert(cpu.registers.with_de(v) == cpu.registers);
    } else if r == 2 {
        assert(cpu.registers.with_hl(v) == cpu.registers);
    }
}

/// Rotating a byte left and then right gives it back: RRC undoes RLC, RR undoes RL when it
/// rotates in the carry that RL produced, and SWAP undoes itself.
#[verifier::spinoff_prover]
#[verifier::rlimit(30)]
pub proof fn law_rotations_invert(value: u8, carry: bool, other_carry: bool)
    ensures
        spec_shift_result(
            ShiftOperation::Rrc,
            spec_shift_result(ShiftOperation::Rlc, value, carry),
            other_carry,
        ) == value,
        spec_shift_result(
            ShiftOperation::Rr,
            spec_shift_result(ShiftOperation::Rl, value, carry),
            spec_shift_carry(ShiftOperation::Rl, value),
        ) == value,
        spec_shift_result(
            ShiftOperation::Swap,
            spec_shift_result(ShiftOperation::Swap, value, carry),
            other_carry,
        ) == value,
{
}

/// After SET b the bit reads as set, after RES b it reads as reset, and both leave the other
/// bits unchanged.
pub proof fn law_set_and_reset_bits(value: u8, b: u8, other: u8)
    requires
        b < 8,
        other < 8,
        other != b,
    ensures
        bit_of(with_bit_set(value, b), b),
        !bit_of(with_bit_cleared(value, b), b),
        bit_of(with_bit_set(value, b), other) == bit_of(value, other),
        bit_of(with_bit_cleared(value, b), other) == bit_of(value, other),
{
    assert(bit_of(with_bit_set(value, b), b)) by (bit_vector)
        requires
            b < 8,
    ;
    assert(!bit_of(with_bit_cleared(value, b), b)) by (bit_vector)
        requires
            b < 8,
    ;
    assert(bit_of(with_bit_set(value, b), other) == bit_of(value, other)) by (bit_vector)
        requires
            b < 8,
            other < 8,
            other != b,
    ;
    assert(bit_of(with_bit_cleared(value, b), other) == bit_of(value, other)) by (bit_vector)
        requires
            b < 8,
            other < 8,
            other != b,
    ;
}

/// The PPU keeps LY within 0-153 and the dot count of a scanline below 456.
pub proof fn law_ppu_stays_in_frame(memory: MemoryBus, dots: u16)
    requires
        memory.spec_read(LY) < LY_MAX_LINES,
        dots < T_CYCLES_PER_SCANLINE,
    ensures
        spec_state_memory(memory, dots).spec_read(LY) < LY_MAX_LINES,
        (if spec_ends_line(dots) {
            dots + 4 - T_CYCLES_PER_SCANLINE
        } else {
            dots + 4
        }) < T_CYCLES_PER_SCANLINE,
{
}

/// A RET at the end of an interrupt handler resumes the interrupted program: PC and SP are
/// those from before the interrupt was serviced.
pub proof fn law_ret_after_interrupt(cpu: Cpu, interrupt_type: InterruptType)
    ensures
        InterruptsHandler::spec_service(cpu, interrupt_type).spec_ret().registers.pc
            == cpu.registers.pc,
        InterruptsHandler::spec_service(cpu, interrupt_type).spec_ret().registers.sp
            == cpu.registers.sp,
{
    let c = (Cpu { ime: false, ..cpu }).set_mem(
        IF,
        cpu.spec_mem(IF) & interrupt_type.spec_clear_mask(),
    );
    law_pop_after_push(c, cpu.registers.pc);
}

/// With IME reset, handling interrupts services none: registers, memory and cycles are
/// unchanged (only HALT mode may end).
pub proof fn law_no_service_without_ime(cpu: Cpu)
    requires
        !cpu.ime,
    ensures
        InterruptsHandler::spec_handle(cpu) == (Cpu {
            is_halt_mode: InterruptsHandler::spec_handle(cpu).is_halt_mode,
            ..cpu
        }),
{
}

/// The decimal value of a byte holding two BCD digits.
pub open spec fn bcd_value(v: u8) -> int {
    (v / 16) * 10 + v % 16
}

/// The byte holding the two BCD digits of `n` (0-99).
pub open spec fn bcd_byte(n: int) -> int {
    (n / 10) * 16 + n % 10
}

/// DAA after adding two BCD bytes gives the BCD form of their decimal sum modulo 100, and sets
/// C exactly when that sum exceeds 99.
pub proof fn law_daa_after_bcd_add(a: u8, b: u8)
    requires
        a % 16 <= 9,
        a / 16 <= 9,
        b % 16 <= 9,
        b / 16 <= 9,
    ensures
        spec_daa(spec_add(a, b, 0).0, spec_add(a, b, 0).1).0 == bcd_byte(
            (bcd_value(a) + bcd_value(b)) % 100,
        ),
        spec_daa(spec_add(a, b, 0).0, spec_add(a, b, 0).1).1.c == (bcd_value(a) + bcd_value(b)
            >= 100),
{
    let x = a as u16;
    let y = b as u16;
    assert({
        let s = ((x + y) % 256) as u16;
        let low = x % 16 + y % 16 > 15 || s % 16 > 9;
        let high = x + y > 255 || s > 0x99;
        let adjusted = ((s + (if low { 6u16 } else { 0u16 }) + (if high { 0x60u16 } else { 0u16 }))
            % 256) as u16;
        let decimal = ((x / 16) * 10 + x % 16 + (y / 16) * 10 + y % 16) as u16;
        &&& adjusted == (((decimal % 100) / 10) * 16 + (decimal % 100) % 10) as u16
        &&& high == (decimal >= 100)
    }) by (bit_vector)
        requires
            x % 16 <= 9,
            x / 16 <= 9,
            y % 16 <= 9,
            y / 16 <= 9,
    ;
}

/// The parts of the CPU that no instruction changes, and the pending DI and EI flags.
pub open spec fn keeps_control_state(before: Cpu, after: Cpu, opcode: u8) -> bool {
    &&& after.ppu == before.ppu
    &&& after.is_debug_mode == before.is_debug_mode
    &&& after.is_halt_mode == before.is_halt_mode
    &&& after.ime == before.ime
    &&& after.di_instruction_pending == (before.di_instruction_pending || opcode == 0xF3)
    &&& after.ei_instruction_pending == (before.ei_instruction_pending || opcode == 0xFB)
}

#[verifier::spinoff_prover]
proof fn lemma_cb_keeps_control_state(cpu: Cpu)
    ensures
        keeps_control_state(cpu, cpu.spec_execute_cb(), 0xCB),
{
    reveal(Cpu::spec_cb_operation);
}

#[verifier::spinoff_prover]
proof fn lemma_block0_keeps_control_state(cpu: Cpu, opcode: u8)
    requires
        opcode / 64 == 0,
    ensures
        keeps_control_state(cpu, cpu.spec_execute_block0(opcode), opcode),
{
}

#[verifier::spinoff_prover]
proof fn lemma_block3_low_columns_keep_control_state(cpu: Cpu, opcode: u8)
    requires
        opcode / 64 == 3,
        opcode % 8 < 4,
    ensures
        keeps_control_state(cpu, cpu.spec_execute_block3(opcode), opcode),
{
    lemma_cb_keeps_control_state(cpu);
}

proof fn lemma_alu_keeps_control_state(cpu: Cpu, operation: AluOperation, value: u8)
    ensures
        keeps_control_state(cpu, cpu.spec_alu(operation, value), 0),
{
}

#[verifier::spinoff_prover]
proof fn lemma_block3_high_columns_keep_control_state(cpu: Cpu, opcode: u8)
    requires
        opcode / 64 == 3,
        opcode % 8 >= 4,
    ensures
        keeps_control_state(cpu, cpu.spec_execute_block3(opcode), opcode),
{
    if opcode % 8 == 6 {
        let c = cpu.spec_alu(alu_operation_of(((opcode / 8) % 8) as int), cpu.spec_imm8());
        lemma_alu_keeps_control_state(cpu, alu_operation_of(((opcode / 8) % 8) as int), cpu.spec_imm8());
        assert(cpu.spec_execute_block3(opcode) == c.advance_pc(1).add_cycles(8));
    }
}

proof fn lemma_block3_keeps_control_state(cpu: Cpu, opcode: u8)
    requires
        opcode / 64 == 3,
    ensures
        keeps_control_state(cpu, cpu.spec_execute_block3(opcode), opcode),
{
    if opcode % 8 < 4 {
        lemma_block3_low_columns_keep_control_state(cpu, opcode);
    } else {
        lemma_block3_high_columns_keep_control_state(cpu, opcode);
    }
}

#[verifier::spinoff_prover]
proof fn lemma_block1_keeps_control_state(cpu: Cpu, opcode: u8)
    requires
        opcode / 64 == 1,
    ensures
        keeps_control_state(cpu, cpu.spec_execute_block1(opcode), opcode),
{
}

#[verifier::spinoff_prover]
proof fn lemma_block2_keeps_control_state(cpu: Cpu, opcode: u8)
    requires
        opcode / 64 == 2,
    ensures
        keeps_control_state(cpu, cpu.spec_execute_block2(opcode), opcode),
{
}

/// No instruction changes the PPU, the debug flag, HALT mode or IME; DI sets the
/// pending DI and EI the pending EI, and no instruction clears either.
#[verifier::spinoff_prover]
pub proof fn law_execute_keeps_control_state(cpu: Cpu, opcode: u8)
    ensures
        keeps_control_state(cpu, cpu.spec_execute(opcode), opcode),
{
    if opcode / 64 == 0 {
        lemma_block0_keeps_control_state(cpu, opcode);
    } else if opcode / 64 == 1 {
        lemma_block1_keeps_control_state(cpu, opcode);
    } else if opcode / 64 == 2 {
        lemma_block2_keeps_control_state(cpu, opcode);
    } else {
        lemma_block3_keeps_control_state(cpu, opcode);
    }
}

/// Executing an opcode that the emulator does not implement changes nothing.
pub proof fn law_unimplemented_opcodes_change_nothing(cpu: Cpu, opcode: u8)
    requires
        spec_unimplemented_opcode(opcode),
    ensures
        cpu.spec_execute(opcode) == cpu,
{
}

/// What a tick does to IME and the pending DI: a DI leaves IME as it was and the DI pending;
/// any other instruction leaves no DI pending, resets IME when a DI was pending before it, and
/// otherwise leaves IME as it was.
pub proof fn law_tick_ime(cpu: Cpu)
    ensures
        cpu.spec_imm8() == 0xF3 ==> cpu.spec_tick().di_instruction_pending && cpu.spec_tick().ime
            == cpu.ime,
        cpu.spec_imm8() != 0xF3 ==> !cpu.spec_tick().di_instruction_pending,
        cpu.spec_imm8() != 0xF3 && cpu.di_instruction_pending ==> !cpu.spec_tick().ime,
        cpu.spec_imm8() != 0xF3 && !cpu.di_instruction_pending ==> cpu.spec_tick().ime == cpu.ime,
{
    law_execute_keeps_control_state(cpu.advance_pc(1), cpu.spec_imm8());
}

/// DI takes effect after the instruction that follows it: a tick that starts with a DI
/// pending and executes any other instruction ends with IME and the pending DI reset.
pub proof fn law_di_takes_effect_after_next_instruction(cpu: Cpu)
    requires
        cpu.di_instruction_pending,
        cpu.spec_imm8() != 0xF3,
    ensures
        !cpu.spec_tick().ime,
        !cpu.spec_tick().di_instruction_pending,
{
    law_execute_keeps_control_state(cpu.advance_pc(1), cpu.spec_imm8());
}

/// The cycles counted toward the next DIV increment stay below 256: DIV advances once for
/// every 256 cycles.
pub proof fn law_div_counter_stays_below_256(timer: Timer, cycles: u8, memory: MemoryBus)
    requires
        timer.cycles_executed_div < 256,
    ensures
        timer.spec_update_div(cycles, memory).0.cycles_executed_div < 256,
{
}

/// What the TIMA part of an update does while the timer is enabled and no overflow is pending,
/// for `period` cycles between two increments: once the counted cycles reach `period`, TIMA is
/// incremented (from 0xFF it becomes 0 and the overflow is marked) and `period` cycles are taken
/// off the count; below that only the count grows and memory is unchanged.
pub open spec fn tima_counts_with_period(
    timer: Timer,
    cycles: u8,
    memory: MemoryBus,
    period: int,
) -> bool {
    let after = timer.spec_update_tima(cycles, memory);
    let total = timer.cycles_executed_tima + cycles;
    let tima = memory.spec_read(TIMA);
    if total >= period {
        &&& after.1 == memory.spec_write(TIMA, ((tima + 1) % 256) as u8)
        &&& after.0.tima_overflowed == (tima == 255)
        &&& after.0.cycles_executed_tima == total - period
    } else {
        &&& after.1 == memory
        &&& after.0.cycles_executed_tima == total
        &&& !after.0.tima_overflowed
    }
}

/// TIMA counts at the rate selected by bits 1-0 of TAC: one increment every 1024 cycles for 00
/// (4096 Hz), 16 for 01 (262144 Hz), 64 for 10 (65536 Hz) and 256 for 11 (16384 Hz), the CPU
/// clock running at 4194304 Hz.
pub proof fn law_tima_rate(timer: Timer, cycles: u8, memory: MemoryBus)
    requires
        !timer.tima_overflowed,
        (memory.spec_read(TAC) / 4) % 2 == 1,
        timer.cycles_executed_tima + cycles <= 0xFFFF,
    ensures
        memory.spec_read(TAC) % 4 == 0 ==> tima_counts_with_period(timer, cycles, memory, 1024),
        memory.spec_read(TAC) % 4 == 1 ==> tima_counts_with_period(timer, cycles, memory, 16),
        memory.spec_read(TAC) % 4 == 2 ==> tima_counts_with_period(timer, cycles, memory, 64),
        memory.spec_read(TAC) % 4 == 3 ==> tima_counts_with_period(timer, cycles, memory, 256),
        4194304int / 1024 == 4096 && 4194304int / 16 == 262144 && 4194304int / 64 == 65536
            && 4194304int / 256 == 16384,
{
    let tac = memory.spec_read(TAC);
    lemma_tima_counts_with_threshold(timer, cycles, memory);
    if tac % 4 == 0 {
        assert(spec_tima_threshold(tac % 4) == 1024);
    } else if tac % 4 == 1 {
        assert(spec_tima_threshold(tac % 4) == 16);
    } else if tac % 4 == 2 {
        assert(spec_tima_threshold(tac % 4) == 64);
    } else {
        assert(spec_tima_threshold(tac % 4) == 256);
    }
}

/// The TIMA part of an update counts with the threshold selected by TAC.
#[verifier::spinoff_prover]
proof fn lemma_tima_counts_with_threshold(timer: Timer, cycles: u8, memory: MemoryBus)
    requires
        !timer.tima_overflowed,
        (memory.spec_read(TAC) / 4) % 2 == 1,
        timer.cycles_executed_tima + cycles <= 0xFFFF,
    ensures
        tima_counts_with_period(
            timer,
            cycles,
            memory,
            spec_tima_threshold(memory.spec_read(TAC) % 4) as int,
        ),
{
    let tima = memory.spec_read(TIMA);
    if tima == 255 {
        assert(((tima + 1) % 256) as u8 == 0u8);
    } else {
        assert(((tima + 1) % 256) as u8 == (tima + 1) as u8);
    }
}

/// The byte address of the tile row that the background shows at pixel (`row`, `col`) of the
/// screen, and the colour index read from it. The pixel lies at (SCY + row, SCX + col) of the
/// 256x256 background, wrapping around; its tile number is read from the tile map at $9C00 when
/// bit 3 of LCDC is set and at $9800 otherwise. With bit 4 of LCDC set, or a tile number k of
/// 128 or more, the tile's 16 bytes start at $8000 + 16k; with bit 4 clear, tile numbers 0-127
/// start at $9000 + 16k. When bit 0 of LCDC is set the screen shows that index's colour.
pub proof fn law_bg_tile_data_address(mem: Seq<u8>, row: int, col: int)
    ensures
        ({
            let lcdc = mem[0xFF40];
            let y = (mem[0xFF42] + row) % 256;
            let x = (mem[0xFF43] + col) % 256;
            let map_start: int = if (lcdc / 8) % 2 == 1 {
                0x9C00
            } else {
                0x9800
            };
            let k = mem[map_start + 32 * (y / 8) + x / 8];
            let tile_start: int = if (lcdc / 16) % 2 == 1 || k >= 128 {
                0x8000 + 16 * k
            } else {
                0x9000 + 16 * k
            };
            let pixel = spec_pixel_index(
                mem[tile_start + 2 * (y % 8)],
                mem[tile_start + 2 * (y % 8) + 1],
                x % 8,
            );
            &&& spec_screen_pixel(mem, row, col) == pixel
            &&& lcdc % 2 == 1 ==> Ppu::spec_screen_color(mem, row, col) == spec_color(pixel)
        }),
{
}

/// ADD SP, e (0xE8) adds the immediate byte e read as signed: SP becomes SP + e - 256 when e is
/// 128 or more and SP + e otherwise, modulo 65536, and PC moves past e. A second ADD SP with the
/// negated offset (256 - e) restores SP; -128 (e = 0x80) has no negation in a byte and is left
/// out. LD HL, SP+e (0xF8) puts the same sum in HL and leaves SP.
#[verifier::spinoff_prover]
pub proof fn law_add_sp_signed_offset(cpu: Cpu)
    ensures
        ({
            let e = cpu.spec_imm8();
            let sp = cpu.registers.sp;
            let sum = if e >= 128 {
                (sp + e - 256) % 65536
            } else {
                (sp + e) % 65536
            };
            let once = cpu.spec_add_sp_imm8();
            &&& once.registers.sp == sum
            &&& once.registers.pc == (cpu.registers.pc + 1) % 65536
            &&& cpu.spec_ld_hl_sp_imm8().registers.spec_hl() == sum
            &&& cpu.spec_ld_hl_sp_imm8().registers.sp == sp
            &&& (e != 128 && once.spec_imm8() == (256 - e) % 256)
                ==> once.spec_add_sp_imm8().registers.sp == sp
        }),
        cpu.spec_execute(0xE8) == cpu.spec_add_sp_imm8(),
        cpu.spec_execute(0xF8) == cpu.spec_ld_hl_sp_imm8(),
{
    let e = cpu.spec_imm8();
    let sp = cpu.registers.sp;
    let once = cpu.spec_add_sp_imm8();
    lemma_execute_add_sp(cpu);
    lemma_execute_ld_hl_sp(cpu);
    assert(cpu.spec_ld_hl_sp_imm8().registers.spec_hl() == add16(sp, signed(e)));
    if e != 128 && once.spec_imm8() == (256 - e) % 256 {
        assert(signed(e) + signed(once.spec_imm8()) == 0);
        assert(add16(add16(sp, signed(e)), signed(once.spec_imm8())) == sp);
    }
}

/// Opcode 0xE8 runs ADD SP, e.
#[verifier::spinoff_prover]
proof fn lemma_execute_add_sp(cpu: Cpu)
    ensures
        cpu.spec_execute(0xE8) == cpu.spec_add_sp_imm8(),
{
}

/// Opcode 0xF8 runs LD HL, SP+e.
#[verifier::spinoff_prover]
proof fn lemma_execute_ld_hl_sp(cpu: Cpu)
    ensures
        cpu.spec_execute(0xF8) == cpu.spec_ld_hl_sp_imm8(),
{
}

/// DAA after subtracting two BCD bytes gives the BCD form of the decimal difference modulo 100,
/// and leaves C set exactly when the subtrahend was the larger: BCD 10 - 20 gives 90 with C set.
#[verifier::spinoff_prover]
pub proof fn law_daa_after_bcd_sub(a: u8, b: u8)
    requires
        a % 16 <= 9,
        a / 16 <= 9,
        b % 16 <= 9,
        b / 16 <= 9,
    ensures
        spec_daa(spec_sub(a, b, 0).0, spec_sub(a, b, 0).1).0 == bcd_byte(
            (bcd_value(a) - bcd_value(b)) % 100,
        ),
        spec_daa(spec_sub(a, b, 0).0, spec_sub(a, b, 0).1).1.c == (bcd_value(a) < bcd_value(b)),
{
    let x = a as u16;
    let y = b as u16;
    assert({
        let s = ((x + 512 - y) % 256) as u16;
        let h = x % 16 < y % 16;
        let c = x < y;
        let adjusted = ((s + 256 - (if h { 6u16 } else { 0u16 }) - (if c { 0x60u16 } else { 0u16 }))
            % 256) as u16;
        let decimal = (((x / 16) * 10 + x % 16 + 100 - (y / 16) * 10 - y % 16) % 100) as u16;
        &&& adjusted == ((decimal / 10) * 16 + decimal % 10) as u16
        &&& c == ((x / 16) * 10 + x % 16 < (y / 16) * 10 + y % 16)
    }) by (bit_vector)
        requires
            x % 16 <= 9,
            x / 16 <= 9,
            y % 16 <= 9,
            y / 16 <= 9,
    ;
    assert((bcd_value(a) - bcd_value(b)) % 100 == (bcd_value(a) + 100 - bcd_value(b)) % 100);
}

/// JR NZ, e (0x20), JR Z, e (0x28), JR NC, e (0x30) and JR C, e (0x38) jump exactly when Z is
/// reset, Z is set, CY is reset and CY is set respectively. A jump moves PC past the offset
/// byte and then by the offset read as signed, and takes 12 cycles; otherwise nothing changes.
#[verifier::spinoff_prover]
pub proof fn law_jr_cc_conditions(cpu: Cpu, opcode: u8)
    requires
        opcode == 0x20 || opcode == 0x28 || opcode == 0x30 || opcode == 0x38,
    ensures
        ({
            let z = cpu.registers.flags.z;
            let c = cpu.registers.flags.c;
            let taken = if opcode == 0x20 {
                !z
            } else if opcode == 0x28 {
                z
            } else if opcode == 0x30 {
                !c
            } else {
                c
            };
            let e = cpu.spec_imm8();
            let target = if e >= 128 {
                (cpu.registers.pc + 1 + e - 256) % 65536
            } else {
                (cpu.registers.pc + 1 + e) % 65536
            };
            let after = cpu.spec_execute(opcode);
            &&& taken ==> after.registers.pc == target && after.cycles == (cpu.cycles + 12)
                % 0x1_0000_0000_0000_0000 && after.registers.sp == cpu.registers.sp
                && after.registers.flags == cpu.registers.flags && after.memory_bus
                == cpu.memory_bus
            &&& !taken ==> after == cpu
        }),
{
    assert(cpu.spec_execute(opcode) == cpu.spec_execute_block0(opcode));
}

/// The conditions of RET cc, JP cc, nn and CALL cc, nn: NZ (0xC0, 0xC2, 0xC4) holds exactly when
/// Z is reset, Z (0xC8, 0xCA, 0xCC) when Z is set, NC (0xD0, 0xD2, 0xD4) when CY is reset and C
/// (0xD8, 0xDA, 0xDC) when CY is set. A JP cc whose condition fails moves PC past its two
/// operand bytes; one whose condition holds jumps to its 16-bit operand.
#[verifier::spinoff_prover]
pub proof fn law_branch_conditions(cpu: Cpu, opcode: u8)
    ensures
        opcode == 0xC0 || opcode == 0xC2 || opcode == 0xC4 ==> (cpu.spec_condition(opcode)
            == !cpu.registers.flags.z),
        opcode == 0xC8 || opcode == 0xCA || opcode == 0xCC ==> (cpu.spec_condition(opcode)
            == cpu.registers.flags.z),
        opcode == 0xD0 || opcode == 0xD2 || opcode == 0xD4 ==> (cpu.spec_condition(opcode)
            == !cpu.registers.flags.c),
        opcode == 0xD8 || opcode == 0xDA || opcode == 0xDC ==> (cpu.spec_condition(opcode)
            == cpu.registers.flags.c),
        opcode == 0xC2 || opcode == 0xCA || opcode == 0xD2 || opcode == 0xDA ==> cpu.spec_execute(
            opcode,
        ).registers.pc == if cpu.spec_condition(opcode) {
            cpu.spec_imm16()
        } else {
            add16(cpu.registers.pc, 2)
        },
{
}

/// The eight 8-bit operations of A with a value v. ADD, ADC: A + v (+ C), Z on a zero result,
/// N reset, H on a carry out of bit 3, C on a carry out of bit 7. SUB, SBC: A - v (- C), Z on
/// a zero result, N set, H on a borrow from bit 4, C on a borrow. AND: A & v with H set; XOR,
/// OR: A ^ v, A | v with H reset; the three reset N and C and set Z on a zero result. CP sets
/// the flags as SUB and leaves A. A SUB v followed by an ADD v gives A back.
#[verifier::spinoff_prover]
pub proof fn law_alu_operations(cpu: Cpu, v: u8)
    ensures
        ({
            let a = cpu.registers.a;
            let cin: int = if cpu.registers.flags.c {
                1
            } else {
                0
            };
            let add = cpu.spec_alu(AluOperation::Add, v);
            let adc = cpu.spec_alu(AluOperation::Adc, v);
            let sub = cpu.spec_alu(AluOperation::Sub, v);
            let sbc = cpu.spec_alu(AluOperation::Sbc, v);
            let and = cpu.spec_alu(AluOperation::And, v);
            let xor = cpu.spec_alu(AluOperation::Xor, v);
            let or = cpu.spec_alu(AluOperation::Or, v);
            let cp = cpu.spec_alu(AluOperation::Cp, v);
            &&& add.registers.a == (a + v) % 256
            &&& add.registers.flags == (FlagsRegister {
                z: (a + v) % 256 == 0,
                n: false,
                h: a % 16 + v % 16 > 15,
                c: a + v > 255,
            })
            &&& adc.registers.a == (a + v + cin) % 256
            &&& adc.registers.flags == (FlagsRegister {
                z: (a + v + cin) % 256 == 0,
                n: false,
                h: a % 16 + v % 16 + cin > 15,
                c: a + v + cin > 255,
            })
            &&& sub.registers.a == (a + 256 - v) % 256
            &&& sub.registers.flags == (FlagsRegister {
                z: a == v,
                n: true,
                h: a % 16 < v % 16,
                c: a < v,
            })
            &&& sbc.registers.a == (a + 512 - v - cin) % 256
            &&& sbc.registers.flags == (FlagsRegister {
                z: (a + 512 - v - cin) % 256 == 0,
                n: true,
                h: a % 16 < v % 16 + cin,
                c: a < v + cin,
            })
            &&& and.registers.a == a & v
            &&& and.registers.flags == (FlagsRegister { z: a & v == 0, n: false, h: true, c: false })
            &&& xor.registers.a == a ^ v
            &&& xor.registers.flags == (FlagsRegister {
                z: a ^ v == 0,
                n: false,
                h: false,
                c: false,
            })
            &&& or.registers.a == a | v
            &&& or.registers.flags == (FlagsRegister { z: a | v == 0, n: false, h: false, c: false })
            &&& cp.registers.a == a
            &&& cp.registers.flags == sub.registers.flags
            &&& sub.spec_alu(AluOperation::Add, v).registers.a == a
        }),
{
    lemma_alu_add(cpu, v);
    lemma_alu_sub(cpu, v);
    lemma_alu_logic(cpu, v);
}

/// ADD and ADC.
#[verifier::spinoff_prover]
proof fn lemma_alu_add(cpu: Cpu, v: u8)
    ensures
        ({
            let a = cpu.registers.a;
            let cin: int = if cpu.registers.flags.c {
                1
            } else {
                0
            };
            let add = cpu.spec_alu(AluOperation::Add, v);
            let adc = cpu.spec_alu(AluOperation::Adc, v);
            &&& add.registers.a == (a + v) % 256
            &&& add.registers.flags == (FlagsRegister {
                z: (a + v) % 256 == 0,
                n: false,
                h: a % 16 + v % 16 > 15,
                c: a + v > 255,
            })
            &&& adc.registers.a == (a + v + cin) % 256
            &&& adc.registers.flags == (FlagsRegister {
                z: (a + v + cin) % 256 == 0,
                n: false,
                h: a % 16 + v % 16 + cin > 15,
                c: a + v + cin > 255,
            })
        }),
{
}

/// SUB, SBC and CP, and ADD undoing SUB.
#[verifier::spinoff_prover]
proof fn lemma_alu_sub(cpu: Cpu, v: u8)
    ensures
        ({
            let a = cpu.registers.a;
            let cin: int = if cpu.registers.flags.c {
                1
            } else {
                0
            };
            let sub = cpu.spec_alu(AluOperation::Sub, v);
            let sbc = cpu.spec_alu(AluOperation::Sbc, v);
            let cp = cpu.spec_alu(AluOperation::Cp, v);
            &&& sub.registers.a == (a + 256 - v) % 256
            &&& sub.registers.flags == (FlagsRegister {
                z: a == v,
                n: true,
                h: a % 16 < v % 16,
                c: a < v,
            })
            &&& sbc.registers.a == (a + 512 - v - cin) % 256
            &&& sbc.registers.flags == (FlagsRegister {
                z: (a + 512 - v - cin) % 256 == 0,
                n: true,
                h: a % 16 < v % 16 + cin,
                c: a < v + cin,
            })
            &&& cp.registers.a == a
            &&& cp.registers.flags == sub.registers.flags
            &&& sub.spec_alu(AluOperation::Add, v).registers.a == a
        }),
{
    let a = cpu.registers.a;
    if a == v {
        assert((a + 512 - v) % 256 == 0);
    } else {
        assert((a - v + 512) % 256 != 0);
    }
}

/// AND, XOR and OR.
#[verifier::spinoff_prover]
proof fn lemma_alu_logic(cpu: Cpu, v: u8)
    ensures
        ({
            let a = cpu.registers.a;
            let and = cpu.spec_alu(AluOperation::And, v);
            let xor = cpu.spec_alu(AluOperation::Xor, v);
            let or = cpu.spec_alu(AluOperation::Or, v);
            &&& and.registers.a == a & v
            &&& and.registers.flags == (FlagsRegister { z: a & v == 0, n: false, h: true, c: false })
            &&& xor.registers.a == a ^ v
            &&& xor.registers.flags == (FlagsRegister {
                z: a ^ v == 0,
                n: false,
                h: false,
                c: false,
            })
            &&& or.registers.a == a | v
            &&& or.registers.flags == (FlagsRegister { z: a | v == 0, n: false, h: false, c: false })
        }),
{
}

/// INC r (0x04 + 8r) and DEC r (0x05 + 8r) on B, C, D, E, H, L or A: INC adds 1 and DEC
/// subtracts 1, wrapping; INC sets H when the low nibble was 0xF and Z when the result is 0,
/// resetting N; DEC sets H when the low nibble was 0 and Z when the result is 0, setting N;
/// both keep C. A DEC r after an INC r gives the register back.
#[verifier::spinoff_prover]
pub proof fn law_inc_dec_r8(cpu: Cpu, r: u8)
    requires
        r < 8,
        r != 6,
    ensures
        ({
            let v = cpu.registers.spec_get_8bit(r);
            let inc = cpu.spec_inc_r((0x04 + 8 * r) as u8);
            let dec = cpu.spec_dec_r((0x05 + 8 * r) as u8);
            &&& inc.registers.spec_get_8bit(r) == (v + 1) % 256
            &&& inc.registers.flags == (FlagsRegister {
                z: v == 255,
                n: false,
                h: v % 16 == 15,
                c: cpu.registers.flags.c,
            })
            &&& dec.registers.spec_get_8bit(r) == (v + 255) % 256
            &&& dec.registers.flags == (FlagsRegister {
                z: v == 1,
                n: true,
                h: v % 16 == 0,
                c: cpu.registers.flags.c,
            })
            &&& inc.spec_dec_r((0x05 + 8 * r) as u8).registers.spec_get_8bit(r) == v
        }),
{
    assert((((0x04 + 8 * r) as u8) / 8) % 8 == r);
    assert((((0x05 + 8 * r) as u8) / 8) % 8 == r);
    let v = cpu.registers.spec_get_8bit(r);
    let inc = cpu.spec_inc_r((0x04 + 8 * r) as u8);
    assert(inc.registers.spec_get_8bit(r) == (v + 1) % 256);
}

/// Each interrupt's bit in IE and IF and the address of its handler: VBlank bit 0 and 0x40,
/// LCD bit 1 and 0x48, Timer bit 2 and 0x50, Serial bit 3 and 0x58, Joypad bit 4 and 0x60.
/// Servicing an interrupt resets IME, clears its bit in IF (0xFF0F) and no other, pushes PC
/// (SP down by 2), jumps to the handler and takes 20 cycles. IF keeps its new value unless the
/// push itself writes over it (SP at 0xFF10 or 0xFF11), which is left out.
#[verifier::spinoff_prover]
pub proof fn law_interrupt_vectors(cpu: Cpu, interrupt_type: InterruptType)
    requires
        cpu.registers.sp != 0xFF10,
        cpu.registers.sp != 0xFF11,
    ensures
        ({
            let after = InterruptsHandler::spec_service(cpu, interrupt_type);
            let flags = cpu.spec_mem(0xFF0F);
            let (bit, handler): (u8, u16) = match interrupt_type {
                InterruptType::VBlank => (0x01, 0x40),
                InterruptType::LCD => (0x02, 0x48),
                InterruptType::Timer => (0x04, 0x50),
                InterruptType::Serial => (0x08, 0x58),
                InterruptType::Joypad => (0x10, 0x60),
            };
            &&& interrupt_type.spec_mask() == bit
            &&& after.registers.pc == handler
            &&& after.spec_mem(0xFF0F) == flags & (0xFF - bit) as u8
            &&& !after.ime
            &&& after.registers.sp == (cpu.registers.sp + 65534) % 65536
            &&& after.spec_top_of_stack() == cpu.registers.pc
            &&& after.cycles == (cpu.cycles + 20) % 0x1_0000_0000_0000_0000
        }),
{
    let c = (Cpu { ime: false, ..cpu }).set_mem(
        IF,
        cpu.spec_mem(IF) & interrupt_type.spec_clear_mask(),
    );
    law_pop_after_push(c, cpu.registers.pc);
}

/// DIV counts at 16384 Hz: it is incremented, wrapping, exactly when the counted cycles reach
/// 256, and 256 cycles are then taken off the count; below that memory is unchanged.
pub proof fn law_div_rate(timer: Timer, cycles: u8, memory: MemoryBus)
    requires
        timer.cycles_executed_div + cycles <= 0xFFFF,
    ensures
        ({
            let after = timer.spec_update_div(cycles, memory);
            let total = timer.cycles_executed_div + cycles;
            if total >= 256 {
                &&& after.1 == memory.spec_write(0xFF04, ((memory.spec_read(0xFF04) + 1) % 256) as u8)
                &&& after.0.cycles_executed_div == total - 256
            } else {
                &&& after.1 == memory
                &&& after.0.cycles_executed_div == total
            }
        }),
{
}

/// The update that follows a TIMA overflow reloads TIMA (0xFF05) from TMA (0xFF06) and
/// requests the Timer interrupt by setting bit 2 of IF (0xFF0F), whatever TAC holds.
pub proof fn law_tima_overflow_reload(timer: Timer, cycles: u8, memory: MemoryBus)
    requires
        timer.tima_overflowed,
    ensures
        ({
            let after = timer.spec_update_tima(cycles, memory);
            &&& !after.0.tima_overflowed
            &&& after.0.cycles_executed_tima == timer.cycles_executed_tima
            &&& after.1.spec_read(0xFF05) == memory.spec_read(0xFF06)
            &&& after.1.spec_read(0xFF0F) == memory.spec_read(0xFF0F) | 0x04
        }),
{
}

/// The palette of the screen: colour index 0 is white (0xFFFFFF), 1 light grey (0xAAAAAA),
/// 2 dark grey (0x555555), and 3, like any larger value, black (0x000000).
pub proof fn law_palette(index: u8)
    ensures
        spec_color(index) == if index == 0 {
            0xFFFFFFu32
        } else if index == 1 {
            0xAAAAAAu32
        } else if index == 2 {
            0x555555u32
        } else {
            0x000000u32
        },
{
}

/// Setting and clearing the flag bits of STAT and IF.
proof fn lemma_flag_bits(x: u8)
    by (bit_vector)
    ensures
        (x | 4) % 4 == x % 4,
        ((x | 4) / 4) % 2 == 1,
        (x & 0xFB) % 4 == x % 4,
        ((x & 0xFB) / 4) % 2 == 0,
        (x | 1) % 2 == 1,
        ((x | 1) / 2) % 2 == (x / 2) % 2,
        (x | 2) % 2 == x % 2,
        ((x | 2) / 2) % 2 == 1,
{
}

/// Writing a mode to bits 1-0 of STAT.
proof fn lemma_mode_bits(stat: u8, mode: u8)
    by (bit_vector)
    requires
        mode < 4,
    ensures
        ((stat & 0xFC) | mode) % 4 == mode,
{
}

/// Each update of the PPU state adds 4 dots, 456 making a scanline. When they end the
/// scanline, LY (0xFF44) moves to the next line, wrapping from 153 to 0; on line 144 the
/// V-Blank interrupt (bit 0 of IF, 0xFF0F) is requested and bits 1-0 of STAT (0xFF41) read 1
/// (V-Blank), on any other line they read 2 (OAM search). Within a scanline LY stays, and bits
/// 1-0 of STAT read 2 (OAM search) while the dots, counting the 4 new ones, are 0-79, 3 (pixel
/// transfer) for 80-251 and 0 (H-Blank) after. Bit 2 of STAT is then set exactly when LY equals
/// LYC (0xFF45), and the LCD interrupt (bit 1 of IF) is requested when they are equal.
#[verifier::spinoff_prover]
pub proof fn law_ppu_lines_and_modes(memory: MemoryBus, dots: u16)
    requires
        memory.spec_read(0xFF44) < 154,
        dots < 456,
    ensures
        ({
            let after = spec_state_memory(memory, dots);
            let ly = memory.spec_read(0xFF44);
            let new_dots = dots + 4;
            let ends = new_dots >= 456;
            let new_ly: int = if ends {
                (ly + 1) % 154
            } else {
                ly as int
            };
            let mode: int = if ends {
                if new_ly == 144 {
                    1
                } else {
                    2
                }
            } else if new_dots <= 79 {
                2
            } else if new_dots <= 251 {
                3
            } else {
                0
            };
            &&& after.spec_read(0xFF44) == new_ly
            &&& after.spec_read(0xFF41) % 4 == mode
            &&& ((after.spec_read(0xFF41) / 4) % 2 == 1) == (new_ly == memory.spec_read(0xFF45))
            &&& new_ly == memory.spec_read(0xFF45) ==> (after.spec_read(0xFF0F) / 2) % 2 == 1
            &&& ends && new_ly == 144 ==> after.spec_read(0xFF0F) % 2 == 1
        }),
{
    let ends = spec_ends_line(dots);
    let before_compare = if ends {
        let ly = spec_next_line(memory);
        let m = memory.spec_write(LY, ly);
        if ly == 144 {
            let m2 = m.spec_write(IF, m.spec_read(IF) | 1);
            lemma_flag_bits(m.spec_read(IF));
            lemma_mode_bits(m2.spec_read(STAT), 1);
            spec_with_mode(m2, PpuMode::VBlank)
        } else {
            lemma_mode_bits(m.spec_read(STAT), 2);
            spec_with_mode(m, PpuMode::OamSearch)
        }
    } else {
        let mode = PpuMode::spec_for_dots((dots + 4) as u16);
        lemma_mode_bits(memory.spec_read(STAT), mode.spec_bits());
        spec_with_mode(memory, mode)
    };
    assert(spec_state_memory(memory, dots) == spec_after_lyc_compare(before_compare));
    lemma_flag_bits(before_compare.spec_read(STAT));
    lemma_flag_bits(before_compare.spec_read(IF));
}

/// The CB rotates and shifts of a byte v with carry flag `carry`. SLA doubles v modulo 256
/// and SRL halves it, rounding down; SRA halves it keeping bit 7; RL and RR shift as SLA and SRL
/// and bring the carry in at bit 0 and bit 7; RLC and RRC bring in the bit shifted out instead;
/// SWAP exchanges the two nibbles. The carry after a left operation is bit 7 of v, after a
/// right operation bit 0 of v, and SWAP resets it.
#[verifier::spinoff_prover]
pub proof fn law_shift_operations(v: u8, carry: bool)
    ensures
        ({
            let cin: int = if carry {
                1
            } else {
                0
            };
            let sla = spec_shift_result(ShiftOperation::Sla, v, carry);
            let srl = spec_shift_result(ShiftOperation::Srl, v, carry);
            &&& sla == (2 * v) % 256
            &&& srl == v / 2
            &&& spec_shift_result(ShiftOperation::Sra, v, carry) == srl + (if v >= 128 {
                128int
            } else {
                0int
            })
            &&& spec_shift_result(ShiftOperation::Rl, v, carry) == sla + cin
            &&& spec_shift_result(ShiftOperation::Rr, v, carry) == srl + 128 * cin
            &&& spec_shift_result(ShiftOperation::Rlc, v, carry) == sla + (if v >= 128 {
                1int
            } else {
                0int
            })
            &&& spec_shift_result(ShiftOperation::Rrc, v, carry) == srl + (if v % 2 == 1 {
                128int
            } else {
                0int
            })
            &&& spec_shift_result(ShiftOperation::Swap, v, carry) / 16 == v % 16
            &&& spec_shift_result(ShiftOperation::Swap, v, carry) % 16 == v / 16
            &&& spec_shift_carry(ShiftOperation::Rlc, v) == (v >= 128)
            &&& spec_shift_carry(ShiftOperation::Rl, v) == (v >= 128)
            &&& spec_shift_carry(ShiftOperation::Sla, v) == (v >= 128)
            &&& spec_shift_carry(ShiftOperation::Rrc, v) == (v % 2 == 1)
            &&& spec_shift_carry(ShiftOperation::Rr, v) == (v % 2 == 1)
            &&& spec_shift_carry(ShiftOperation::Sra, v) == (v % 2 == 1)
            &&& spec_shift_carry(ShiftOperation::Srl, v) == (v % 2 == 1)
            &&& !spec_shift_carry(ShiftOperation::Swap, v)
        }),
{
}

/// The taken and untaken paths of CALL cc, nn (0xC4, 0xCC, 0xD4, 0xDC) and RET cc (0xC0,
/// 0xC8, 0xD0, 0xD8). A CALL whose condition holds pushes the address after its two operand
/// bytes and jumps to its operand; otherwise PC moves past the operand. A RET whose condition
/// holds pops PC from the stack; otherwise nothing changes.
#[verifier::spinoff_prover]
pub proof fn law_conditional_calls_and_returns(cpu: Cpu, opcode: u8)
    ensures
        opcode == 0xC4 || opcode == 0xCC || opcode == 0xD4 || opcode == 0xDC ==> {
            let after = cpu.spec_execute(opcode);
            if cpu.spec_condition(opcode) {
                &&& after.registers.pc == cpu.spec_imm16()
                &&& after.registers.sp == (cpu.registers.sp + 65534) % 65536
                &&& after.spec_top_of_stack() == (cpu.registers.pc + 2) % 65536
            } else {
                &&& after.registers.pc == (cpu.registers.pc + 2) % 65536
                &&& after.registers.sp == cpu.registers.sp
            }
        },
        opcode == 0xC0 || opcode == 0xC8 || opcode == 0xD0 || opcode == 0xD8 ==> {
            let after = cpu.spec_execute(opcode);
            if cpu.spec_condition(opcode) {
                &&& after.registers.pc == cpu.spec_top_of_stack()
                &&& after.registers.sp == (cpu.registers.sp + 2) % 65536
            } else {
                after == cpu
            }
        },
{
    if opcode == 0xC4 || opcode == 0xCC || opcode == 0xD4 || opcode == 0xDC {
        assert(cpu.spec_execute(opcode) == cpu.spec_execute_block3(opcode));
        law_pop_after_push(cpu, add16(cpu.registers.pc, 2));
    }
}

/// 16-bit additions and their flags. ADD HL, rr (0x09, 0x19, 0x29, 0x39 for BC, DE, HL, SP)
/// puts HL + rr modulo 65536 in HL, resets N, sets H on a carry out of bit 11 and C on a carry
/// out of bit 15, and keeps Z. ADD SP, e (0xE8) and LD HL, SP+e (0xF8) reset Z and N and set
/// H and C from the addition of e to the low byte of SP, as unsigned bytes.
#[verifier::spinoff_prover]
pub proof fn law_16bit_addition_flags(cpu: Cpu, pair: u8)
    requires
        pair < 4,
    ensures
        ({
            let hl = cpu.registers.spec_hl();
            let rr = if pair == 0 {
                cpu.registers.spec_bc()
            } else if pair == 1 {
                cpu.registers.spec_de()
            } else if pair == 2 {
                hl
            } else {
                cpu.registers.sp
            };
            let after = cpu.spec_add_hl_r16((0x09 + 16 * pair) as u8);
            let low = cpu.registers.sp % 256;
            let e = cpu.spec_imm8();
            let sp_flags = FlagsRegister {
                z: false,
                n: false,
                h: low % 16 + e % 16 > 15,
                c: low + e > 255,
            };
            &&& after.registers.spec_hl() == (hl + rr) % 65536
            &&& after.registers.flags == (FlagsRegister {
                z: cpu.registers.flags.z,
                n: false,
                h: hl % 4096 + rr % 4096 > 4095,
                c: hl + rr > 65535,
            })
            &&& cpu.spec_add_sp_imm8().registers.flags == sp_flags
            &&& cpu.spec_ld_hl_sp_imm8().registers.flags == sp_flags
        }),
{
    assert((((0x09 + 16 * pair) as u8) / 16) % 4 == pair);
}

/// The four bytes of an object in OAM ($FE00 + 4i): Y, X, tile index and attribute flags.
/// Bit 7 of the flags gives the priority, bit 6 the vertical flip, bit 5 the horizontal flip,
/// and the palette is OBP1 when bit 6 is set, OBP0 otherwise.
pub proof fn law_oam_object_layout(mem: Seq<u8>, i: int)
    ensures
        ({
            let object = Object::spec_oam_object(mem, i);
            let flags = mem[0xFE00 + 4 * i + 3];
            &&& object.y == mem[0xFE00 + 4 * i]
            &&& object.x == mem[0xFE00 + 4 * i + 1]
            &&& object.tile_index == mem[0xFE00 + 4 * i + 2]
            &&& object.attributes.priority == (flags >= 128)
            &&& object.attributes.y_flip == ((flags / 64) % 2 == 1)
            &&& object.attributes.x_flip == ((flags / 32) % 2 == 1)
            &&& (object.attributes.pallete is OBP1) == ((flags / 64) % 2 == 1)
        }),
{
}

/// A tile row is stored in two bytes: pixel `col` (0 = leftmost) takes bit 7 - col of the
/// second byte as the high bit of its colour index and bit 7 - col of the first byte as the
/// low bit.
pub proof fn law_tile_row_pixel(lo: u8, hi: u8, col: int)
    requires
        0 <= col < 8,
    ensures
        spec_pixel_index(lo, hi, col) == (if bit_of(hi, (7 - col) as u8) {
            2int
        } else {
            0int
        }) + (if bit_of(lo, (7 - col) as u8) {
            1int
        } else {
            0int
        }),
{
    let k = (7 - col) as u8;
    assert(((((hi >> k) & 1u8) * 2 + ((lo >> k) & 1u8)) as u8) == (if (hi >> k) & 1u8 == 1u8 {
        2u8
    } else {
        0u8
    }) + (if (lo >> k) & 1u8 == 1u8 {
        1u8
    } else {
        0u8
    })) by (bit_vector)
        requires
            k < 8,
    ;
}

/// LD r, r' (0x40-0x7F, neither operand being (HL)) copies register r' (bits 2-0) into register
/// r (bits 5-3). The ALU operations on A take 4 cycles with a register operand and 8 with an
/// immediate byte (0xC6, 0xCE, ..., 0xFE), which PC then moves past; with (HL) they take 8
/// cycles, except ADC A, (HL) (0x8E), which adds none.
#[verifier::spinoff_prover]
pub proof fn law_register_instructions(cpu: Cpu, opcode: u8)
    ensures
        0x40 <= opcode < 0x80 && opcode % 8 != 6 && (opcode / 8) % 8 != 6 ==> cpu.spec_execute(
            opcode,
        ).registers.spec_get_8bit((opcode / 8) % 8) == cpu.registers.spec_get_8bit(opcode % 8),
        0x80 <= opcode < 0xC0 && opcode % 8 != 6 ==> cpu.spec_execute(opcode).cycles == (cpu.cycles
            + 4) % 0x1_0000_0000_0000_0000,
        0x80 <= opcode < 0xC0 && opcode % 8 == 6 && opcode != 0x8E ==> cpu.spec_execute(
            opcode,
        ).cycles == (cpu.cycles + 8) % 0x1_0000_0000_0000_0000,
        0xC0 <= opcode && opcode % 8 == 6 ==> cpu.spec_execute(opcode).cycles == (cpu.cycles + 8)
            % 0x1_0000_0000_0000_0000 && cpu.spec_execute(opcode).registers.pc == (cpu.registers.pc
            + 1) % 65536,
{
    if 0x40 <= opcode < 0x80 && opcode % 8 != 6 && (opcode / 8) % 8 != 6 {
        assert(cpu.spec_execute(opcode) == cpu.spec_execute_block1(opcode));
    }
}

/// The flags of LCDC, bit 7 first: LCD and PPU enable, Window tile map ($9C00 when set),
/// Window enable, BG and Window tile addressing ($8000 when set), BG tile map ($9C00 when set),
/// object size, object enable, BG and Window enable.
pub proof fn law_lcdc_bits(v: u8)
    ensures
        LcdcRegister::spec_from_byte(v) == (LcdcRegister {
            lcd_ppu_enabled: bit_of(v, 7),
            window_tile_map_area: bit_of(v, 6),
            window_enable: bit_of(v, 5),
            bg_window_tiles: bit_of(v, 4),
            bg_tile_map_area: bit_of(v, 3),
            obj_size: bit_of(v, 2),
            obj_enable: bit_of(v, 1),
            bg_window_enable: bit_of(v, 0),
        }),
        LcdcRegister::spec_from_byte(v).spec_bg_tile_map_start() == if bit_of(v, 3) {
            0x9C00u16
        } else {
            0x9800u16
        },
{
    assert({
        &&& (v >= 128) == ((v >> 7u8) & 1u8 == 1u8)
        &&& ((v / 64) % 2 == 1) == ((v >> 6u8) & 1u8 == 1u8)
        &&& ((v / 32) % 2 == 1) == ((v >> 5u8) & 1u8 == 1u8)
        &&& ((v / 16) % 2 == 1) == ((v >> 4u8) & 1u8 == 1u8)
        &&& ((v / 8) % 2 == 1) == ((v >> 3u8) & 1u8 == 1u8)
        &&& ((v / 4) % 2 == 1) == ((v >> 2u8) & 1u8 == 1u8)
        &&& ((v / 2) % 2 == 1) == ((v >> 1u8) & 1u8 == 1u8)
        &&& (v % 2 == 1) == ((v >> 0u8) & 1u8 == 1u8)
    }) by (bit_vector);
}

/// The layout of the window: the game screen scaled 3x (480x432, 207360 entries) on the
/// left, then a 20-pixel margin, then the tile data view from column 500: 16 columns and 24
/// rows of tiles scaled 3x in slots of 30 pixels (6 of them margin), 974x714 pixels in all.
/// Position (row, col) of the view shows pixel ((row % 30) / 3, ((col - 500) % 30) / 3) of tile
/// 16 * (row / 30) + (col - 500) / 30.
pub proof fn law_window_layout(memory: Seq<u8>, row: int, col: int)
    ensures
        game_area_len() == 207360,
        tile_view_start_col() == 500,
        tile_slot() == 30,
        TOTAL_WINDOW_WIDTH == 974,
        TOTAL_WINDOW_HEIGHT == 714,
        tile_view_color(memory, row, col) == spec_color(
            spec_tile_pixel(
                memory,
                16 * (row / 30) + (col - 500) / 30,
                (row % 30) / 3,
                ((col - 500) % 30) / 3,
            ),
        ),
{
}

} // verus!
