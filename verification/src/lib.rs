pub mod bits;
pub mod constants;
pub mod cpu_components;
pub mod interrupts;
pub mod ppu_components;
pub mod registers_constants;
pub mod timer;
pub mod ppu;
pub mod cpu;
pub mod execution;
pub mod instructions;
pub mod cpu_utils;
pub mod laws;
pub mod nintendo_display;
pub mod screen;
