# oxidesfc_core

The emulation core of a Super Nintendo emulator: the 65C816 CPU, work RAM,
the PPU's memories (VRAM, CGRAM, OAM), its I/O register file and timing, the
DMA register file, save-state encoding, and the frame renderer. Every
function is verified with Verus against a contract stated over mathematical
models of the hardware.

## Layout

- `src/cpu/` — the CPU. `spec.rs` gives the instruction set's semantics as
  spec functions over the memory bus's own state machine
  (`MemoryBus::read_spec` / `write_spec`); `dispatch.rs` is the 256-arm
  opcode match, in the specification and in the code; `families.rs`,
  `ops.rs`, `alu.rs`, `control.rs` and `addressing.rs` hold the shared
  instruction shapes; `widths.rs` proves that every instruction, interrupt and
  reset keeps the emulation-mode register widths (with E set, M and X stay set
  and X/Y hold 8-bit values), the block moves aside; `snapshot.rs` is the CPU's
  save state.
- `src/wram.rs`, `src/vram.rs`, `src/cgram.rs`, `src/oam.rs` — the memories,
  each with a read-after-write property.
- `src/io.rs` — the $2100-$21FF register file, as a state machine
  (`io_read_spec` / `io_write_spec`).
- `src/dma.rs` — the eight DMA channels' registers and their save state.
- `src/ppu.rs` — PPU registers, dot/scanline/frame timing and save state.
- `src/state.rs` — the little-endian field encoding shared by every save
  state, with its round-trip lemmas.
- `src/renderer/` — VRAM/CGRAM/OAM plus registers to RGBA8888. Each layer
  pass (`background`, `mode7`, `sprites`) is specified pixel by pixel;
  `compose` stacks them in each mode's priority order and specifies every
  output pixel (`frame_pixel`), so that rendering in per-scanline bands is
  proved equal to rendering each line with its own registers.

## Checking

`tests/` holds the unit tests; they run against the compiled library.
