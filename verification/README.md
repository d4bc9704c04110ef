# emu

A Super Nintendo emulator core written in Verus: the 65C816 CPU, the system
bus, the picture processor, the SPC700 audio unit with its DSP, cartridge
mapping, DMA and the joypad. Every operation of the core carries a contract
over a plain-value model of the hardware (`BusView`, `PpuView`, `ApuView`,
...), and the properties that relate several operations (register round
trips, RAM mirrors, stack pushes and pulls, call and return) are stated and
proved as `law_*` proof functions.

- `src/` — the verified library, one module per chip plus `emulator`, which
  runs the CPU against the bus a frame at a time.
- `tests/` — executable tests against the compiled library.
- `app/` — the command-line front end, file I/O for ROM images and `.sram`
  saves, the window front end's commands and its debugger window.
