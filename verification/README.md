# gameboy

A Game Boy emulator core written in Verus. The library in `src/` models the processor,
its registers and instruction set, the memory map with its devices (RAM banks, the LCD
controller, interrupt registers, the timer), the tile and palette logic of the picture
processor, cartridge headers and a small debugger console; each operation carries a
contract that Verus proves. `app/` holds the program around it: command-line handling,
reading ROM files and the SDL window.

Layout:

- `src/bytes.rs`, `src/text.rs`: byte and text helpers.
- `src/register.rs`, `src/register/watcher.rs`: the register file and register break points.
- `src/mmu.rs`, `src/device/`: the memory map and the devices behind it.
- `src/gpu.rs`, `src/tile.rs`, `src/palette.rs`: tiles, tile maps and colours.
- `src/instruction.rs`, `src/instruction/`: the instruction set, the opcode table and the
  laws about it (decimal adjust, push and pop, call and return).
- `src/cpu.rs`, `src/gameboy.rs`: one step of the machine and its set-up.
- `src/repl.rs`, `src/debugger.rs`, `src/control.rs`: debugger commands and the display
  loop's states.
