use vstd::prelude::*;

verus! {

/// P1 is the joypad input register.
pub const P1: u16 = 0xFF00;

/// SB is the serial transfer data register.
pub const SB: u16 = 0xFF01;

/// SC is the serial transfer control register.
pub const SC: u16 = 0xFF02;

/// Divider Register (DIV).
pub const DIV: u16 = 0xFF04;

/// Timer Counter (TIMA).
pub const TIMA: u16 = 0xFF05;

/// Timer Modulo (TMA).
pub const TMA: u16 = 0xFF06;

/// Timer Control (TAC).
pub const TAC: u16 = 0xFF07;

/// The IF register indicates which interrupts are requested.
pub const IF: u16 = 0xFF0F;

/// LCDC is the main LCD Control register.
pub const LCDC: u16 = 0xFF40;

/// STAT is the LCD Status register.
pub const STAT: u16 = 0xFF41;

/// SCY specifies the vertical scroll position of the background.
pub const SCY: u16 = 0xFF42;

/// SCX specifies the horizontal scroll position of the background.
pub const SCX: u16 = 0xFF43;

/// LY indicates the current horizontal line (0 to 153).
pub const LY: u16 = 0xFF44;

/// LYC is compared with LY; when both are equal the LYC=LY flag of STAT is set.
pub const LYC: u16 = 0xFF45;

/// DMA starts a transfer to the Object Attribute Memory.
pub const DMA: u16 = 0xFF46;

/// BGP assigns gray shades to the color indices of the BG and Window tiles.
pub const BGP: u16 = 0xFF47;

/// OBP0 assigns gray shades to the color indices of objects using palette 0.
pub const OBP0: u16 = 0xFF48;

/// OBP1 assigns gray shades to the color indices of objects using palette 1.
pub const OBP1: u16 = 0xFF49;

/// WY specifies the Y position of the window on the screen.
pub const WY: u16 = 0xFF4A;

/// WX specifies the X position of the window on the screen.
pub const WX: u16 = 0xFF4B;

/// The IE register controls which interrupts are enabled.
pub const IE: u16 = 0xFFFF;

} // verus!
