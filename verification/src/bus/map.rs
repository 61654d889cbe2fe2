//! Address decoding and per-access decisions of the CPU memory bus.
//!
//! The bus routes every CPU access by address: cartridge ROM/RAM, VRAM,
//! work RAM and its echo, OAM, I/O, HRAM and IE. The functions here hold the
//! decisions the bus makes on plain values (which region an address falls in,
//! whether OAM DMA owns the source bus, how a write to an I/O port is stored,
//! how a tick is split while HDMA runs); the devices behind each region keep
//! their own state.

use vstd::prelude::*;
use super::io::{apply_unused_bits, spec_unused_bits};

verus! {

/// Regions of the 16-bit CPU address space.
#[derive(Debug, Clone, Copy, PartialEq, Eq, Structural)]
pub enum Region {
    /// `$0000`–`$7FFF` ROM and `$A000`–`$BFFF` external RAM (through the MBC).
    Cartridge,
    /// `$8000`–`$9FFF` video RAM.
    Vram,
    /// `$C000`–`$DFFF` work RAM.
    Wram,
    /// `$E000`–`$FDFF` mirror of work RAM.
    EchoWram,
    /// `$FE00`–`$FE9F` object attribute memory.
    Oam,
    /// `$FEA0`–`$FEFF` prohibited area (reads `$FF`, writes ignored).
    Unusable,
    /// `$FF00`–`$FF7F` I/O registers.
    Io,
    /// `$FF80`–`$FFFE` high RAM.
    Hram,
    /// `$FFFF` interrupt enable.
    InterruptEnable,
}

pub open spec fn spec_region(addr: u16) -> Region {
    if addr <= 0x7FFF || (0xA000 <= addr <= 0xBFFF) {
        Region::Cartridge
    } else if addr <= 0x9FFF {
        Region::Vram
    } else if 0xC000 <= addr <= 0xDFFF {
        Region::Wram
    } else if 0xE000 <= addr <= 0xFDFF {
        Region::EchoWram
    } else if 0xFE00 <= addr <= 0xFE9F {
        Region::Oam
    } else if 0xFEA0 <= addr <= 0xFEFF {
        Region::Unusable
    } else if 0xFF00 <= addr <= 0xFF7F {
        Region::Io
    } else if 0xFF80 <= addr <= 0xFFFE {
        Region::Hram
    } else {
        Region::InterruptEnable
    }
}

/// Region that serves a CPU access to `addr`.
pub fn region(addr: u16) -> (r: Region)
    ensures
        r == spec_region(addr),
{
    match addr {
        0x0000..=0x7FFF | 0xA000..=0xBFFF => Region::Cartridge,
        0x8000..=0x9FFF => Region::Vram,
        0xC000..=0xDFFF => Region::Wram,
        0xE000..=0xFDFF => Region::EchoWram,
        0xFE00..=0xFE9F => Region::Oam,
        0xFEA0..=0xFEFF => Region::Unusable,
        0xFF00..=0xFF7F => Region::Io,
        0xFF80..=0xFFFE => Region::Hram,
        0xFFFF => Region::InterruptEnable,
    }
}

/// Work-RAM address behind an echo address (`$C000 | ((addr - $E000) & $1FFF)`).
pub fn echo_wram_addr(addr: u16) -> (r: u16)
    requires
        0xE000 <= addr,
    ensures
        r == (0xC000u16 | ((addr - 0xE000) as u16 & 0x1FFFu16)),
        addr <= 0xFDFF ==> r == addr - 0x2000,
        0xC000 <= r <= 0xDFFF,
{
    let off: u16 = addr - 0xE000;
    let r: u16 = 0xC000 | (off & 0x1FFF);
    assert(off <= 0x1DFF ==> (0xC000u16 | (off & 0x1FFFu16)) == 0xC000 + off) by (bit_vector);
    assert(0xC000 <= (0xC000u16 | (off & 0x1FFFu16)) <= 0xDFFF) by (bit_vector);
    r
}

/// Whether a CPU access to `addr` hits the bus OAM DMA is reading from.
///
/// `page` is the DMA source page (`$FF46`); `dma_blocks_oam` is whether a
/// transfer currently owns the bus.
pub open spec fn spec_dma_conflicts_with(dma_blocks_oam: bool, page: u8, addr: u16) -> bool {
    if !dma_blocks_oam {
        false
    } else if 0xFF80 <= addr || (0xFE00 <= addr <= 0xFE9F) {
        false
    } else if addr <= 0x7FFF || (0xA000 <= addr <= 0xBFFF) {
        page < 0x80 || (0xA0 <= page < 0xC0)
    } else if 0x8000 <= addr <= 0x9FFF {
        0x80 <= page < 0xA0
    } else if 0xC000 <= addr <= 0xFDFF {
        page >= 0xC0
    } else {
        false
    }
}

/// True when a CPU access to `addr` conflicts with the active OAM DMA source bus:
/// reads see the byte in flight and writes are dropped.
pub fn dma_conflicts_with(dma_blocks_oam: bool, page: u8, addr: u16) -> (r: bool)
    ensures
        r == spec_dma_conflicts_with(dma_blocks_oam, page, addr),
{
    if !dma_blocks_oam {
        return false;
    }
    match addr {
        0xFF80..=0xFFFF => false,
        0xFE00..=0xFE9F => false,
        0x0000..=0x7FFF | 0xA000..=0xBFFF => page < 0x80 || (0xA0 <= page && page < 0xC0),
        0x8000..=0x9FFF => 0x80 <= page && page < 0xA0,
        0xC000..=0xFDFF => page >= 0xC0,
        _ => false,
    }
}

/// Value kept in the I/O backing store for a CPU write of `value` to `addr`:
/// IF keeps its five flag bits, and a serial transfer started on SC completes
/// at once (bit 7 cleared).
pub open spec fn spec_io_stored_value(addr: u16, value: u8) -> u8 {
    if addr == 0xFF0F {
        value & 0x1F
    } else if addr == 0xFF02 && value & 0x80 != 0 {
        value & 0x7F
    } else {
        value
    }
}

pub fn io_stored_value(addr: u16, value: u8) -> (r: u8)
    ensures
        r == spec_io_stored_value(addr, value),
{
    if addr == 0xFF0F {
        value & 0x1F
    } else if addr == 0xFF02 && value & 0x80 != 0 {
        value & 0x7F
    } else {
        value
    }
}

/// Slices of at most 4 T-cycles that cover `t` (all full but the last).
pub open spec fn spec_hdma_slices(t: nat) -> Seq<u32>
    decreases t,
{
    if t == 0 {
        Seq::empty()
    } else if t <= 4 {
        seq![t as u32]
    } else {
        seq![4u32] + spec_hdma_slices((t - 4) as nat)
    }
}

/// How one bus tick of `t_cycles` is handed to the hardware: whole, or (while
/// an HBlank DMA is armed and no block copy is running) in 4-T slices so each
/// HBlank can move its block on time.
pub open spec fn spec_tick_slices(slice_hdma: bool, t_cycles: u32) -> Seq<u32> {
    if t_cycles == 0 {
        Seq::empty()
    } else if slice_hdma && t_cycles > 4 {
        spec_hdma_slices(t_cycles as nat)
    } else {
        seq![t_cycles]
    }
}

pub open spec fn spec_sum(s: Seq<u32>) -> int
    decreases s.len(),
{
    if s.len() == 0 {
        0
    } else {
        s[0] + spec_sum(s.drop_first())
    }
}

proof fn lemma_hdma_slices_shape(t: nat)
    ensures
        spec_sum(spec_hdma_slices(t)) == t,
        forall|i: int| 0 <= i < spec_hdma_slices(t).len() ==> 0 < #[trigger] spec_hdma_slices(t)[i] <= 4,
    decreases t,
{
    if t > 4 {
        lemma_hdma_slices_shape((t - 4) as nat);
        let rest = spec_hdma_slices((t - 4) as nat);
        assert((seq![4u32] + rest).drop_first() =~= rest);
    } else if t > 0 {
        assert(seq![t as u32].drop_first() =~= Seq::<u32>::empty());
        assert(spec_sum(Seq::<u32>::empty()) == 0);
    }
}

/// The split of a tick never gains or loses time: its slices add up to the
/// tick, and none is empty or longer than the tick.
pub proof fn lemma_tick_slices_conserve_time(slice_hdma: bool, t_cycles: u32)
    ensures
        spec_sum(spec_tick_slices(slice_hdma, t_cycles)) == t_cycles,
        forall|i: int| 0 <= i < spec_tick_slices(slice_hdma, t_cycles).len()
            ==> 0 < #[trigger] spec_tick_slices(slice_hdma, t_cycles)[i] <= t_cycles,
{
    if t_cycles != 0 {
        if slice_hdma && t_cycles > 4 {
            lemma_hdma_slices_shape(t_cycles as nat);
        } else {
            assert(seq![t_cycles].drop_first() =~= Seq::<u32>::empty());
            assert(spec_sum(Seq::<u32>::empty()) == 0);
        }
    }
}

/// Lengths handed to the hardware for one bus tick of `t_cycles`.
pub fn tick_slices(slice_hdma: bool, t_cycles: u32) -> (v: Vec<u32>)
    ensures
        v@ == spec_tick_slices(slice_hdma, t_cycles),
{
    let mut v: Vec<u32> = Vec::new();
    if t_cycles == 0 {
        return v;
    }
    if !(slice_hdma && t_cycles > 4) {
        v.push(t_cycles);
        return v;
    }
    let mut left: u32 = t_cycles;
    while left > 0
        invariant
            left <= t_cycles,
            t_cycles > 4,
            v@ + spec_hdma_slices(left as nat) == spec_hdma_slices(t_cycles as nat),
        decreases left,
    {
        let step: u32 = if left < 4 { left } else { 4 };
        proof {
            let rest = spec_hdma_slices((left - step) as nat);
            assert(spec_hdma_slices(left as nat) == seq![step] + rest);
            assert(v@.push(step) + rest =~= v@ + (seq![step] + rest));
        }
        v.push(step);
        left = left - step;
    }
    assert(v@ + spec_hdma_slices(0) =~= v@);
    v
}

/// OAM DMA is held back for the cycles right after its start write: of a tick
/// of `t` cycles, the first `suppress` are skipped. Returns the suppression
/// left over and the cycles the transfer advances by.
pub fn oam_dma_budget(suppress: u32, t: u32) -> (r: (u32, u32))
    ensures
        r.0 == if t < suppress { suppress - t } else { 0 },
        r.1 == if t < suppress { 0 } else { t - suppress },
        r.0 + t == suppress + r.1,
{
    let skip: u32 = if t < suppress { t } else { suppress };
    (suppress - skip, t - skip)
}

/// IF after the hardware raises the interrupt bits `raised` (a timer
/// overflow, or VBlank / STAT from the PPU): the bus reads IF (unused bits
/// as ones), ORs the new bits in and writes it back, which keeps the five
/// flag bits.
pub fn raise_interrupt_flags(stored_if: u8, raised: u8) -> (r: u8)
    ensures
        r == spec_io_stored_value(0xFF0F, (stored_if | spec_unused_bits(0xFF0F)) | raised),
        r == (stored_if | raised) & 0x1F,
{
    let read: u8 = apply_unused_bits(0xFF0F, stored_if);
    let r: u8 = io_stored_value(0xFF0F, read | raised);
    assert(((stored_if | 0xE0u8) | raised) & 0x1Fu8 == (stored_if | raised) & 0x1Fu8) by (bit_vector);
    r
}

} // verus!
