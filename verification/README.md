# graycart

Core logic of a Game Boy / Game Boy Color emulator, written in Verus: every
function in `src/` carries a contract that Verus proves.

## Layout

- `src/cpu/` — LR35902 CPU: register file and flags, ALU, opcode decoder,
  disassembly, instruction semantics (registers in, memory reads in, memory
  writes out), cycle costs, interrupt priority / wake / dispatch, and the
  decisions of one CPU step.
- `src/cart/` — cartridge header parsing and report, cartridge type / ROM /
  RAM size tables, memory bank controllers (MBC1, MBC2, MBC3 with real-time
  clock, MBC5), external RAM and battery save images.
- `src/apu/` — audio processing unit: frame sequencer, square (with sweep),
  wave and noise channels, envelopes, NR50/NR51 routing, CGB PCM ports, the
  register file and the bounded host sample buffer.
- `src/bus/` — memory-map decoding, OAM DMA bus conflicts, I/O port routing
  by hardware model, work RAM banking, I/O open-bus bits, CGB scratch
  registers, serial capture and the boot ROM overlay.
- `src/boot.rs` — boot modes, hardware models and the fast-boot hand-off.
- `src/snapshot.rs` — save-state records.
- `src/text.rs` — numeral formatting and the two `std` string functions the
  library relies on.
- `app/lib.rs` — host-side code outside the verified library: ROM file
  loading, the floating-point audio path (DAC levels, mixing, sample pacing,
  statistics) and `Display` for error and report types.
- `tests/` — unit and scenario tests against the library.

Laws that relate several operations (round trips, read-after-write,
invariants kept by every operation) are public `proof fn`s named `lemma_*`
next to the functions they speak of.
