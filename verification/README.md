# rustyboy

A Game Boy emulator core, verified with Verus.

- `src/processor`: the LR35902 processor: registers, the opcode decoder, and the
  semantics of every instruction as spec functions that the executable code is proved
  against.
- `src/cartridge`: cartridge headers and the memory bank controllers (MBC1, MBC2, MBC3, MBC5).
- `src/video`: the video hardware: its modes, registers, memory, tiles and screen.
- `src/hardware`: the memory map, the timer, the joypad register and DMA.
- `src/debugger`: the debugger's commands, breakpoints, prompt history and line editing.
- `app/`: the program: loading a ROM file, the window and the terminal prompt.
