# nesle

The emulation core of an NES reinforcement-learning environment, written in
Verus: the public functions in `src/` carry contracts that the verifier
proves, and every function there is verified.

- `src/cartridge` parses iNES / NES 2.0, UNIF and FDS images.
- `src/mapper` holds the cartridge boards (NROM, UxROM, CNROM, AxROM, MMC1,
  MMC2, MMC3, MMC5, Sunsoft 5B) behind one `Mapper` trait, whose spec
  functions say what each board does on CPU and PPU reads and writes and
  on PPU address changes.
- `src/ppu` models the picture unit: registers, the dot pipeline (tile
  fetches, sprite evaluation, pixel composition), timing and save states.
- `src/apu` models the audio unit's frame counter, DMC, channels and the
  integer side of audio synthesis (channel timers and resampling phase).
- `src/cpu.rs` holds the CPU registers, status flags, interrupt lines, the
  per-cycle start/end bookkeeping and the CPU save state; `src/bus.rs` the
  CPU bus address decoding.
- `src/input.rs` models the controller ports and Four Score.
- Save states: the CPU, PPU, APU, bus, controller, CHR memory and board
  states each serialize to a byte layout; for the CPU, PPU, APU, bus,
  controllers and CHR memory a proof function states that restoring a
  snapshot gives the state back.

Not in this crate: the 6502 instruction engine (opcode decoding and
execution, DMA, interrupt entry) and the whole-machine driver that steps
frames, loads a ROM and saves or restores the complete machine state.
Those parts of the emulator are not implemented here.

`app/` holds what computes in floating point: the RGB palette with colour
emphasis, its luma table, and the audio mixer and output filter.
