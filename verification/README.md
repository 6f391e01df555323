# gameboy_core

A Game Boy (DMG) emulator core whose behaviour is specified and proved with Verus.

- `src/` is the verified library: the SM83 CPU (registers, flags, memory bus, the full
  instruction set of the emulator with its decoder), the interrupt handler, the timer, the
  PPU state machine and background rendering, the debug log line and the window layout.
  Each instruction has a spec function stating its effect on the whole machine state;
  `Cpu::execute` and `Cpu::tick` are proved against the decoder spec `Cpu::spec_execute`.
- `src/laws.rs` states and proves properties that relate several operations (a pop after a
  push, a RET after a CALL, DAA after a BCD addition, DI taking effect one instruction later,
  the PPU staying within its frame, ...).
- `tests/` runs the library on concrete values.
- `app/` is the program: it reads a ROM, opens a `minifb` window, runs the CPU and writes the
  debug logs.
