use vstd::prelude::*;

use crate::bits::lemma_shift_right;
use crate::cpu::Cpu;
use crate::cpu_components::{FlagsRegister, MemoryBus};

verus! {

broadcast use MemoryBus::lemma_view_len, MemoryBus::lemma_spec_write;

/// Decimal adjustment of `a` after an addition (N reset) or a subtraction (N set), with the
/// flags it leaves.
/// After an addition, 0x06 is added if H is set or the low nibble exceeds 9, and 0x60 is added
/// (and C set) if C is set or `a` exceeds 0x99. After a subtraction, 0x06 is subtracted if H is
/// set and 0x60 if C is set; C is kept. Z is set from the result and H reset; N is kept.
pub open spec fn spec_daa(a: u8, f: FlagsRegister) -> (u8, FlagsRegister) {
    if !f.n {
        let low = f.h || a % 16 > 9;
        let high = f.c || a > 0x99;
        let adjusted = a + (if low { 6int } else { 0int }) + (if high { 0x60int } else { 0int });
        (
            (adjusted % 256) as u8,
            FlagsRegister { z: adjusted % 256 == 0, n: false, h: false, c: high },
        )
    } else {
        let adjusted = a + 256 - (if f.h { 6int } else { 0int }) - (if f.c { 0x60int } else { 0int });
        (
            (adjusted % 256) as u8,
            FlagsRegister { z: adjusted % 256 == 0, n: true, h: false, c: f.c },
        )
    }
}

impl Cpu {
    /// NOP: does nothing for 4 cycles.
    pub fn nop(&mut self)
        ensures
            *final(self) == old(self).add_cycles(4),
    {
        self.increment_clock_cycles(4);
    }

    /// DI: interrupts are disabled after the instruction that follows; 4 cycles.
    pub fn di(&mut self)
        ensures
            *final(self) == (Cpu { di_instruction_pending: true, ..*old(self) }).add_cycles(4),
    {
        self.di_instruction_pending = true;
        self.increment_clock_cycles(4);
    }

    /// EI: interrupts are enabled after the instruction that follows; 4 cycles.
    pub fn ei(&mut self)
        ensures
            *final(self) == (Cpu { ei_instruction_pending: true, ..*old(self) }).add_cycles(4),
    {
        self.ei_instruction_pending = true;
        self.increment_clock_cycles(4);
    }

    /// CCF: flips CY; H and N are reset; 4 cycles.
    pub fn ccf(&mut self)
        ensures
            *final(self) == old(self).set_flags(
                FlagsRegister {
                    c: !old(self).registers.flags.c,
                    h: false,
                    n: false,
                    ..old(self).registers.flags
                },
            ).add_cycles(4),
    {
        self.registers.flags.c = !self.registers.flags.c;
        self.registers.flags.h = false;
        self.registers.flags.n = false;
        self.increment_clock_cycles(4);
    }

    /// DAA: adjusts A to a correct BCD value after an addition or subtraction (see
    /// `spec_daa`); 4 cycles.
    /// Example: A = 0x7D after an addition (N, H, C reset): DAA gives A = 0x83, C = 0.
    pub fn daa(&mut self)
        ensures
            *final(self) == old(self).set_a(
                spec_daa(old(self).registers.a, old(self).registers.flags).0,
            ).set_flags(spec_daa(old(self).registers.a, old(self).registers.flags).1).add_cycles(
                4,
            ),
    {
        proof {
            lemma_shift_right(self.registers.a);
        }
        let mut adjustment = 0u8;

        if !self.registers.flags.n {
            // After an addition (ADD, ADC, INC).
            if self.registers.flags.h || (self.registers.a & 0x0F) > 0x09 {
                adjustment = adjustment + 0x06;
            }
            if self.registers.flags.c || self.registers.a > 0x99 {
                adjustment = adjustment + 0x60;
                self.registers.flags.set_c_flag(true);
            }
            self.registers.a = self.registers.a.wrapping_add(adjustment);
        } else {
            // After a subtraction (SUB, SBC, DEC).
            if self.registers.flags.h {
                adjustment = adjustment.wrapping_sub(0x06);
            }
            if self.registers.flags.c {
                adjustment = adjustment.wrapping_sub(0x60);
                self.registers.flags.set_c_flag(true);
            }
            self.registers.a = self.registers.a.wrapping_add(adjustment);
        }

        self.registers.flags.set_z_flag_from_u8(self.registers.a);
        // H is always reset by DAA.
        self.registers.flags.set_h_flag(false);
        self.increment_clock_cycles(4);
    }

    /// CPL: inverts every bit of A; N and H are set; 4 cycles.
    pub fn cpl(&mut self)
        ensures
            *final(self) == old(self).set_a(!old(self).registers.a).set_flags(
                FlagsRegister { n: true, h: true, ..old(self).registers.flags },
            ).add_cycles(4),
    {
        self.registers.a = !self.registers.a;
        self.registers.flags.n = true;
        self.registers.flags.h = true;
        self.increment_clock_cycles(4);
    }

    /// SCF: sets CY; H and N are reset; 4 cycles.
    pub fn scf(&mut self)
        ensures
            *final(self) == old(self).set_flags(
                FlagsRegister { c: true, h: false, n: false, ..old(self).registers.flags },
            ).add_cycles(4),
    {
        self.registers.flags.set_c_flag(true);
        self.registers.flags.h = false;
        self.registers.flags.n = false;
        self.increment_clock_cycles(4);
    }

    /// HALT: takes 4 cycles and changes nothing else.
    pub fn halt(&mut self)
        ensures
            *final(self) == old(self).add_cycles(4),
    {
        self.increment_clock_cycles(4);
    }

    /// STOP: takes 4 cycles and changes nothing else.
    pub fn stop(&mut self)
        ensures
            *final(self) == old(self).add_cycles(4),
    {
        self.increment_clock_cycles(4);
    }
}

} // verus!
