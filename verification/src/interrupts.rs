use vstd::prelude::*;

use crate::bits::{lemma_bit_tests, lemma_low_bit_tests};
use crate::constants::{
    JOYPAD_INTERRUPT_HANDLER_ADDRESS, LCD_STAT_INTERRUPT_HANDLER_ADDRESS,
    SERIAL_INTERRUPT_HANDLER_ADDRESS, TIMER_INTERRUPT_HANDLER_ADDRESS,
    VBLANK_INTERRUT_HANDLER_ADDRESS,
};
use crate::cpu::Cpu;
use crate::cpu_components::MemoryBus;
use crate::registers_constants::{IE, IF};

verus! {

broadcast use MemoryBus::lemma_view_len, MemoryBus::lemma_spec_write;

/// The five interrupt sources, in priority order.
#[derive(Clone, Copy)]
pub enum InterruptType {
    VBlank,
    LCD,
    Timer,
    Serial,
    Joypad,
}

/// Services the interrupts requested in IF and enabled in IE.
pub struct InterruptsHandler;

/// The interrupt bits of the IE or IF register, which share one layout.
pub struct InterruptStatus {
    pub vblank: bool,
    pub lcd: bool,
    pub timer: bool,
    pub serial: bool,
    pub joypad: bool,
}

impl InterruptType {
    /// The bit of this interrupt in the IE and IF registers.
    pub open spec fn spec_mask(self) -> u8 {
        match self {
            InterruptType::VBlank => 0b00000001,
            InterruptType::LCD => 0b00000010,
            InterruptType::Timer => 0b00000100,
            InterruptType::Serial => 0b00001000,
            InterruptType::Joypad => 0b00010000,
        }
    }

    /// The mask that clears the bit of this interrupt in the IE and IF registers.
    pub open spec fn spec_clear_mask(self) -> u8 {
        match self {
            InterruptType::VBlank => 0b11111110,
            InterruptType::LCD => 0b11111101,
            InterruptType::Timer => 0b11111011,
            InterruptType::Serial => 0b11110111,
            InterruptType::Joypad => 0b11101111,
        }
    }

    /// The address of the handler of this interrupt: 0x40, 0x48, 0x50, 0x58 or 0x60.
    pub open spec fn spec_handler_address(self) -> u16 {
        match self {
            InterruptType::VBlank => VBLANK_INTERRUT_HANDLER_ADDRESS,
            InterruptType::LCD => LCD_STAT_INTERRUPT_HANDLER_ADDRESS,
            InterruptType::Timer => TIMER_INTERRUPT_HANDLER_ADDRESS,
            InterruptType::Serial => SERIAL_INTERRUPT_HANDLER_ADDRESS,
            InterruptType::Joypad => JOYPAD_INTERRUPT_HANDLER_ADDRESS,
        }
    }
}

impl InterruptsHandler {
    /// The interrupt bits of an IE or IF value: bit 0 VBlank, 1 LCD, 2 Timer, 3 Serial,
    /// 4 Joypad.
    pub open spec fn spec_status(register: u8) -> InterruptStatus {
        InterruptStatus {
            vblank: register % 2 == 1,
            lcd: (register / 2) % 2 == 1,
            timer: (register / 4) % 2 == 1,
            serial: (register / 8) % 2 == 1,
            joypad: (register / 16) % 2 == 1,
        }
    }

    /// The CPU before the jump to a handler: IME is reset, the interrupt's bit in IF is
    /// cleared and PC is pushed.
    pub open spec fn spec_before_handling(cpu: Cpu, interrupt_type: InterruptType) -> Cpu {
        let c = (Cpu { ime: false, ..cpu }).set_mem(
            IF,
            cpu.spec_mem(IF) & interrupt_type.spec_clear_mask(),
        );
        c.spec_push(c.registers.pc)
    }

    /// The CPU after the jump to a handler: PC takes the handler's address, 20 cycles pass and
    /// HALT mode ends.
    pub open spec fn spec_jump_to_handler(cpu: Cpu, interrupt_type: InterruptType) -> Cpu {
        Cpu {
            is_halt_mode: false,
            ..cpu.set_pc(interrupt_type.spec_handler_address()).add_cycles(20)
        }
    }

    /// The CPU after servicing one interrupt.
    pub open spec fn spec_service(cpu: Cpu, interrupt_type: InterruptType) -> Cpu {
        Self::spec_jump_to_handler(Self::spec_before_handling(cpu, interrupt_type), interrupt_type)
    }

    /// The CPU after `handle`. With IME reset, only HALT mode can end, when IF and IE have a
    /// bit in common. With IME set, the interrupt of highest priority (VBlank, LCD, Timer,
    /// Serial, Joypad) whose bit is set in both IF and IE is serviced; servicing it resets IME,
    /// so the others stay pending in IF. With no such interrupt nothing changes.
    pub open spec fn spec_handle(cpu: Cpu) -> Cpu {
        let if_register = cpu.spec_mem(IF);
        let ie_register = cpu.spec_mem(IE);
        if !cpu.ime {
            if cpu.is_halt_mode && if_register & ie_register != 0 {
                Cpu { is_halt_mode: false, ..cpu }
            } else {
                cpu
            }
        } else {
            let f = Self::spec_status(if_register);
            let e = Self::spec_status(ie_register);
            if f.vblank && e.vblank {
                Self::spec_service(cpu, InterruptType::VBlank)
            } else if f.lcd && e.lcd {
                Self::spec_service(cpu, InterruptType::LCD)
            } else if f.timer && e.timer {
                Self::spec_service(cpu, InterruptType::Timer)
            } else if f.serial && e.serial {
                Self::spec_service(cpu, InterruptType::Serial)
            } else if f.joypad && e.joypad {
                Self::spec_service(cpu, InterruptType::Joypad)
            } else {
                cpu
            }
        }
    }

    /// Checks IME, IF and IE and services the requested and enabled interrupt of highest
    /// priority, in the order VBlank > LCD > Timer > Serial > Joypad. Servicing it resets IME,
    /// which disables further interrupts: the others stay requested in IF. With IME reset, a
    /// halted CPU only leaves HALT mode when an interrupt is pending.
    ///
    /// IME is restored by the handler itself, with RETI or EI.
    pub fn handle(cpu: &mut Cpu)
        ensures
            *final(cpu) == Self::spec_handle(*old(cpu)),
    {
        if !cpu.ime {
            if cpu.is_halt_mode {
                Self::check_pending_interrupts_to_exit_halt_mode(cpu);
            }
            return ;
        }
        let if_register = cpu.memory_bus.read_byte(IF);
        let ie_register = cpu.memory_bus.read_byte(IE);

        let if_register_flags = Self::get_register_flag_values(if_register);
        let ie_register_flags = Self::get_register_flag_values(ie_register);

        // The order of these checks is the priority of the interrupts.
        let interrupt_type = if if_register_flags.vblank && ie_register_flags.vblank {
            InterruptType::VBlank
        } else if if_register_flags.lcd && ie_register_flags.lcd {
            InterruptType::LCD
        } else if if_register_flags.timer && ie_register_flags.timer {
            InterruptType::Timer
        } else if if_register_flags.serial && ie_register_flags.serial {
            InterruptType::Serial
        } else if if_register_flags.joypad && ie_register_flags.joypad {
            InterruptType::Joypad
        } else {
            return ;
        };
        Self::do_before_handling_interrupt(cpu, interrupt_type);
        Self::do_handle_interrupt(cpu, interrupt_type);
    }

    /// Before an interrupt is handled: IME is reset to disable further interrupts, the
    /// interrupt's bit in IF is reset and PC is pushed onto the stack.
    pub fn do_before_handling_interrupt(cpu: &mut Cpu, interrupt_type: InterruptType)
        ensures
            *final(cpu) == Self::spec_before_handling(*old(cpu), interrupt_type),
    {
        cpu.ime = false;

        let mut if_register = cpu.memory_bus.read_byte(IF);
        match interrupt_type {
            InterruptType::VBlank => if_register = if_register & 0b11111110,
            InterruptType::LCD => if_register = if_register & 0b11111101,
            InterruptType::Timer => if_register = if_register & 0b11111011,
            InterruptType::Serial => if_register = if_register & 0b11110111,
            InterruptType::Joypad => if_register = if_register & 0b11101111,
        }
        cpu.memory_bus.write_byte(IF, if_register);

        let pc = cpu.registers.pc;
        cpu.push_value_to_sp(pc);
    }

    /// Jumps to the handler of the interrupt, adds 20 clock cycles and ends HALT mode.
    pub fn do_handle_interrupt(cpu: &mut Cpu, interrupt_type: InterruptType)
        ensures
            *final(cpu) == Self::spec_jump_to_handler(*old(cpu), interrupt_type),
    {
        cpu.registers.pc =
        match interrupt_type {
            InterruptType::VBlank => VBLANK_INTERRUT_HANDLER_ADDRESS,
            InterruptType::LCD => LCD_STAT_INTERRUPT_HANDLER_ADDRESS,
            InterruptType::Timer => TIMER_INTERRUPT_HANDLER_ADDRESS,
            InterruptType::Serial => SERIAL_INTERRUPT_HANDLER_ADDRESS,
            InterruptType::Joypad => JOYPAD_INTERRUPT_HANDLER_ADDRESS,
        };
        cpu.increment_clock_cycles(20);
        cpu.is_halt_mode = false;
    }

    /// The interrupt bits of an IE or IF value: bit 0 VBlank, 1 LCD, 2 Timer, 3 Serial,
    /// 4 Joypad.
    pub fn get_register_flag_values(register: u8) -> (status: InterruptStatus)
        ensures
            status == Self::spec_status(register),
    {
        proof {
            lemma_bit_tests(register);
            lemma_low_bit_tests(register);
        }
        InterruptStatus {
            vblank: register & 0b00000001 != 0,
            lcd: register & 0b00000010 != 0,
            timer: register & 0b00000100 != 0,
            serial: register & 0b00001000 != 0,
            joypad: register & 0b00010000 != 0,
        }
    }

    /// Ends HALT mode when an interrupt is pending, that is when IF and IE have a bit in
    /// common, even with IME reset.
    pub fn check_pending_interrupts_to_exit_halt_mode(cpu: &mut Cpu)
        ensures
            *final(cpu) == if old(cpu).spec_mem(IF) & old(cpu).spec_mem(IE) != 0 {
                Cpu { is_halt_mode: false, ..*old(cpu) }
            } else {
                *old(cpu)
            },
    {
        let if_register = cpu.memory_bus.read_byte(IF);
        let ie_register = cpu.memory_bus.read_byte(IE);

        if if_register & ie_register != 0 {
            cpu.is_halt_mode = false;
        }
    }
}

} // verus!
