use vstd::prelude::*;

use crate::cpu::{add16, signed};
use crate::cpu_components::FlagsRegister;

verus! {

/// Addition of a signed 8-bit offset, with the flags of the Game Boy's SP-relative additions.
pub trait CpuAddOperation {
    fn add_u8_as_signed(&self, value: u8) -> (u16, bool, bool);
}

impl CpuAddOperation for u16 {
    /// Adds `value` read as a signed byte (-128 to 127) to this value, wrapping around at 16
    /// bits. Returns the sum, the carry from bit 7 (C) and the carry from bit 3 (H) of the
    /// unsigned addition of the low byte of this value and `value`.
    fn add_u8_as_signed(&self, value: u8) -> (r: (u16, bool, bool))
        ensures
            r.0 == add16(*self, signed(value)),
            r.1 == (*self % 256 + value > 255),
            r.2 == FlagsRegister::spec_half_carry_add((*self % 256) as u8, value),
    {
        let lower_part_of_u16 = (*self % 256) as u8;
        let c_flag = (lower_part_of_u16 as u16) + (value as u16) > 0xFF;
        let h_flag = FlagsRegister::calculate_h_flag_on_add(lower_part_of_u16, value);

        // The offset sign-extended to 16 bits: 0x00nn for 0-127, 0xFFnn for -128 to -1.
        let offset_u16: u16 = if value < 128 {
            value as u16
        } else {
            value as u16 + 0xFF00
        };
        let result = self.wrapping_add(offset_u16);
        (result, c_flag, h_flag)
    }
}

} // verus!
