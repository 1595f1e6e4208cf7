# feo-boy

An emulator for the Nintendo Game Boy (DMG), written in Rust and verified with Verus.

## Layout

- `src/` is the emulator as a library, each function with a contract that Verus proves, but for
  the few small wrappers around the `smallvec` and `regex` crates, whose contracts are trusted:
  - `cpu/`: the registers and their arithmetic, instruction decoding and execution, interrupts,
    the timer;
  - `bus.rs`: the memory map, the I/O registers and DMA, time passing for every component;
  - `memory/`: the memory manager unit, cartridge loading and the memory bank controllers;
  - `graphics/`: the picture processing unit and its palettes;
  - `audio.rs`: the sound registers;
  - `input.rs`: the joypad;
  - `tui.rs`: the debugger's command language;
  - `text.rs`: numbers as text for the debugger;
  - `lib.rs`: the emulator, its debugger state and its run loop.
- `tests/` runs the library on concrete programs and values.
- `app/` is the command-line front end: it reads the ROM and BIOS files, runs the emulator in
  real time, prints what the game sends over the serial port and drives the debugger from the
  terminal.

## Debugging

Pass `--debug` to the front end to get a prompt that steps emulation an instruction at a time,
sets breakpoints and dumps memory or the CPU state. Enter `?` at the prompt for all options.
