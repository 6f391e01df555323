use vstd::prelude::*;

use crate::cpu_components::MemoryBus;
use crate::interrupts::InterruptType;
use crate::registers_constants::{DIV, IF, TAC, TIMA, TMA};

verus! {

broadcast use MemoryBus::lemma_view_len, MemoryBus::lemma_spec_write;

/// The DIV and TIMA timers.
pub struct Timer {
    /// Number of cycles executed since the last increment of the DIV register.
    pub cycles_executed_div: u16,
    /// Number of cycles executed since the last increment of the TIMA register.
    pub cycles_executed_tima: u16,
    /// TIMA overflowed during the last update; its reload from TMA and the interrupt request
    /// happen on the next update.
    pub tima_overflowed: bool,
}

/// Whether an update of the timer requested an interrupt.
pub enum InterruptRequested {
    Yes,
    No,
}

/// Number of cycles between two increments of TIMA for the clock select bits 1-0 of TAC.
pub open spec fn spec_tima_threshold(input_clock_select: u8) -> u16 {
    if input_clock_select == 0 {
        1024
    } else if input_clock_select == 1 {
        16
    } else if input_clock_select == 2 {
        64
    } else {
        256
    }
}

/// Whether bit 2 of TAC (timer enable) is set.
pub open spec fn spec_timer_enabled(tac: u8) -> bool {
    (tac / 4) % 2 == 1
}

impl Timer {
    /// The timer and memory after the DIV part of an update by `cycles` cycles:
    /// DIV is incremented (wrapping) once at least 256 cycles have accumulated.
    pub open spec fn spec_update_div(self, cycles: u8, memory: MemoryBus) -> (Timer, MemoryBus) {
        let total = self.cycles_executed_div + cycles;
        if total >= 256 {
            (
                Timer { cycles_executed_div: (total - 256) as u16, ..self },
                memory.spec_write(DIV, ((memory.spec_read(DIV) + 1) % 256) as u8),
            )
        } else {
            (Timer { cycles_executed_div: total as u16, ..self }, memory)
        }
    }

    /// The timer and memory after the TIMA part of an update by `cycles` cycles.
    /// A pending overflow reloads TIMA from TMA and requests the Timer interrupt;
    /// otherwise, when the timer is enabled, TIMA is incremented once the threshold selected by
    /// TAC has accumulated, and an increment from 0xFF leaves 0 and marks the overflow.
    pub open spec fn spec_update_tima(self, cycles: u8, memory: MemoryBus) -> (Timer, MemoryBus) {
        if self.tima_overflowed {
            let m1 = memory.spec_write(TIMA, memory.spec_read(TMA));
            (
                Timer { tima_overflowed: false, ..self },
                m1.spec_write(IF, m1.spec_read(IF) | InterruptType::Timer.spec_mask()),
            )
        } else if !spec_timer_enabled(memory.spec_read(TAC)) {
            (self, memory)
        } else {
            let threshold = spec_tima_threshold(memory.spec_read(TAC) % 4);
            let total = self.cycles_executed_tima + cycles;
            if total >= threshold {
                let tima = memory.spec_read(TIMA);
                if tima == 255 {
                    (
                        Timer {
                            cycles_executed_tima: (total - threshold) as u16,
                            tima_overflowed: true,
                            ..self
                        },
                        memory.spec_write(TIMA, 0),
                    )
                } else {
                    (
                        Timer { cycles_executed_tima: (total - threshold) as u16, ..self },
                        memory.spec_write(TIMA, (tima + 1) as u8),
                    )
                }
            } else {
                (Timer { cycles_executed_tima: total as u16, ..self }, memory)
            }
        }
    }

    /// Whether the TIMA part of an update by `cycles` cycles adds without overflow.
    pub open spec fn spec_tima_update_fits(self, cycles: u8, memory: MemoryBus) -> bool {
        self.tima_overflowed || !spec_timer_enabled(memory.spec_read(TAC))
            || self.cycles_executed_tima + cycles <= u16::MAX
    }

    /// The number of cycles between `cycles_before` and `cycles_after`, as counted by an update.
    pub open spec fn spec_elapsed(cycles_before: u64, cycles_after: u64) -> u8 {
        ((cycles_after - cycles_before) % 256) as u8
    }

    /// Whether an update between the two cycle counts adds without overflow.
    pub open spec fn spec_update_fits(
        self,
        cycles_before: u64,
        cycles_after: u64,
        memory: MemoryBus,
    ) -> bool {
        let cycles = Self::spec_elapsed(cycles_before, cycles_after);
        let (t1, m1) = self.spec_update_div(cycles, memory);
        &&& cycles_before <= cycles_after
        &&& self.cycles_executed_div + cycles <= u16::MAX
        &&& t1.spec_tima_update_fits(cycles, m1)
    }

    /// The timer and memory after an update between the two cycle counts.
    pub open spec fn spec_update(
        self,
        cycles_before: u64,
        cycles_after: u64,
        memory: MemoryBus,
    ) -> (Timer, MemoryBus) {
        let cycles = Self::spec_elapsed(cycles_before, cycles_after);
        let (t1, m1) = self.spec_update_div(cycles, memory);
        t1.spec_update_tima(cycles, m1)
    }

    /// A timer with no cycles counted and no pending overflow.
    pub fn new() -> (t: Self)
        ensures
            t.cycles_executed_div == 0 && t.cycles_executed_tima == 0 && !t.tima_overflowed,
    {
        Self { cycles_executed_div: 0, cycles_executed_tima: 0, tima_overflowed: false }
    }

    /// Updates the DIV and TIMA registers for the cycles executed since the last instruction,
    /// and requests the Timer interrupt in IF when a TIMA overflow is reloaded.
    pub fn update(&mut self, cycles_before: u64, cycles_after: u64, memory: &mut MemoryBus)
        requires
            old(self).spec_update_fits(cycles_before, cycles_after, *old(memory)),
        ensures
            (*final(self), *final(memory)) == old(self).spec_update(
                cycles_before,
                cycles_after,
                *old(memory),
            ),
    {
        let cycles_of_last_instruction: u8 = (cycles_after - cycles_before) as u8;
        assert(cycles_of_last_instruction == Self::spec_elapsed(cycles_before, cycles_after))
            by (bit_vector)
            requires
                cycles_of_last_instruction == (cycles_after - cycles_before) as u8,
                cycles_before <= cycles_after,
        ;
        self.update_div(cycles_of_last_instruction, memory);
        self.update_tima(cycles_of_last_instruction, memory);
    }

    /// Increments DIV once at least 256 cycles have accumulated; DIV counts at 16384 Hz,
    /// which is every 256 cycles of the 4.194304 MHz CPU clock.
    fn update_div(&mut self, cycles_of_last_instruction: u8, memory: &mut MemoryBus)
        requires
            old(self).cycles_executed_div + cycles_of_last_instruction <= u16::MAX,
        ensures
            (*final(self), *final(memory)) == old(self).spec_update_div(
                cycles_of_last_instruction,
                *old(memory),
            ),
    {
        let total_cycles = self.cycles_executed_div + cycles_of_last_instruction as u16;

        if total_cycles >= 256 {
            let mut div = memory.get_div_register();
            div = div.wrapping_add(1);
            self.cycles_executed_div = total_cycles - 256;
            memory.set_div_register(div);
        } else {
            self.cycles_executed_div = total_cycles;
        }
    }

    /// Increments TIMA every n cycles (n selected by bits 1-0 of TAC) while the timer is enabled.
    /// When TIMA overflows it holds 0 until the next update, which reloads it from TMA and
    /// requests the Timer interrupt.
    fn update_tima(&mut self, cycles_of_last_instruction: u8, memory: &mut MemoryBus)
        requires
            old(self).spec_tima_update_fits(cycles_of_last_instruction, *old(memory)),
        ensures
            (*final(self), *final(memory)) == old(self).spec_update_tima(
                cycles_of_last_instruction,
                *old(memory),
            ),
    {
        if self.tima_overflowed {
            let tma = memory.get_tma_register();
            memory.set_tima_register(tma);
            memory.update_flag_in_if_register(InterruptType::Timer, true);
            self.tima_overflowed = false;
            return ;
        }
        let tac = memory.get_tac_register();
        proof {
            crate::bits::lemma_low_bit_tests(tac);
            crate::bits::lemma_opcode_fields(tac);
        }
        let timer_enabled = (tac & 0b00000100) != 0;
        if !timer_enabled {
            return ;
        }
        let input_clock_select = tac & 0b00000011;
        let tima_increment_threshold = Self::get_tima_increment_threshould(input_clock_select);

        let total_cycles = self.cycles_executed_tima + cycles_of_last_instruction as u16;

        if total_cycles >= tima_increment_threshold {
            let mut tima = memory.get_tima_register();

            self.cycles_executed_tima = total_cycles - tima_increment_threshold;

            let tima_overflowed = tima == 0xFF;
            let increment_result = tima.wrapping_add(1);

            if tima_overflowed {
                tima = 0;
                self.tima_overflowed = true;
            } else {
                tima = increment_result;
            }
            memory.set_tima_register(tima);
        } else {
            self.cycles_executed_tima = total_cycles;
        }
    }

    /// The number of cycles between two TIMA increments for the TAC clock select bits:
    /// 00: 1024 (4096 Hz), 01: 16 (262144 Hz), 10: 64 (65536 Hz), 11: 256 (16384 Hz).
    fn get_tima_increment_threshould(input_clock_select: u8) -> (t: u16)
        ensures
            t == spec_tima_threshold(input_clock_select),
    {
        match input_clock_select {
            0b00 => 1024,
            0b01 => 16,
            0b10 => 64,
            0b11 => 256,
            _ => 256,
        }
    }
}

} // verus!
