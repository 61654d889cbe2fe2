//! CGB WRAM banks + SVBK (`$FF70`), and the echo of `$C000–$DDFF` at
//! `$E000–$FDFF`.
//!
//! `$C000–$CFFF` is always bank 0. `$D000–$DFFF` maps banks 1–7 via SVBK;
//! writing `0` selects bank 1. DMG (`cgb == false`) always uses bank 1 for `$D000`.

use vstd::prelude::*;
use super::map::echo_wram_addr;

verus! {

pub const SVBK: u16 = 0xFF70;

const BANK_BYTES: usize = 0x1000;

/// Eight 4 KiB banks, stored one after another.
const WRAM_BYTES: usize = 0x8000;

pub struct Wram {
    banks: Vec<u8>,
    /// 1–7 (writes of 0 select bank 1).
    svbk: u8,
}

/// Bank mapped at `$D000` for an SVBK value.
pub open spec fn spec_mapped_bank(svbk: u8) -> int {
    if svbk % 8 == 0 { 1 } else { (svbk % 8) as int }
}

/// Bank that `addr` reaches.
pub open spec fn spec_bank_index(svbk: u8, addr: u16, cgb: bool) -> int {
    if addr < 0xD000 { 0 } else if cgb { spec_mapped_bank(svbk) } else { 1 }
}

/// Work-RAM address an echo address (`$E000` and up) reaches.
pub open spec fn spec_echo_target(addr: u16) -> u16 {
    (0xC000u16 | ((addr - 0xE000) as u16 & 0x1FFFu16))
}

/// Position of `addr`'s byte in the eight banks laid end to end.
pub open spec fn spec_location(svbk: u8, addr: u16, cgb: bool) -> int {
    spec_bank_index(svbk, addr, cgb) * 0x1000 + addr % 0x1000
}

impl Wram {
    /// Eight full banks and a selected bank in 1–7.
    pub closed spec fn wf(self) -> bool {
        &&& self.banks@.len() == 0x8000
        &&& 1 <= self.svbk < 8
    }

    /// The eight banks laid end to end (bank `k` at `k * $1000`).
    pub closed spec fn bytes(self) -> Seq<u8> {
        self.banks@
    }

    /// What well-formedness gives a caller: eight banks of storage and a
    /// selected bank in 1–7.
    pub proof fn lemma_wf(self)
        requires
            self.wf(),
        ensures
            self.bytes().len() == 0x8000,
            1 <= self.svbk_view() < 8,
    {
    }

    /// Selected bank register (1–7).
    pub closed spec fn svbk_view(self) -> u8 {
        self.svbk
    }

    pub fn new() -> (w: Self)
        ensures
            w.wf(),
            w.bytes() == Seq::new(0x8000, |i: int| 0u8),
            w.svbk_view() == 1,
    {
        let mut banks: Vec<u8> = Vec::new();
        let mut i: usize = 0;
        while i < WRAM_BYTES
            invariant
                i <= WRAM_BYTES,
                banks@ == Seq::new(i as nat, |j: int| 0u8),
            decreases WRAM_BYTES - i,
        {
            banks.push(0);
            i = i + 1;
            assert(banks@ =~= Seq::new(i as nat, |j: int| 0u8));
        }
        Self { banks, svbk: 1 }
    }

    pub fn mapped_bank_d(&self) -> (b: usize)
        ensures
            b == spec_mapped_bank(self.svbk_view()),
            1 <= b < 8,
    {
        let bank: usize = (self.svbk % 8) as usize;
        if bank == 0 { 1 } else { bank }
    }

    fn offset(addr: u16) -> (o: usize)
        ensures
            o == addr % 0x1000,
    {
        (addr % 0x1000) as usize
    }

    fn bank_index(&self, addr: u16, cgb: bool) -> (b: usize)
        ensures
            b == spec_bank_index(self.svbk_view(), addr, cgb),
            b < 8,
    {
        if addr < 0xD000 {
            0
        } else if cgb {
            self.mapped_bank_d()
        } else {
            1
        }
    }

    /// Byte at `addr` in `$C000–$DFFF`.
    pub fn read(&self, addr: u16, cgb: bool) -> (v: u8)
        requires
            self.wf(),
            0xC000 <= addr < 0xE000,
        ensures
            v == self.bytes()[spec_location(self.svbk_view(), addr, cgb)],
    {
        let bank: usize = self.bank_index(addr, cgb);
        self.banks[bank * BANK_BYTES + Self::offset(addr)]
    }

    /// Store `value` at `addr` in `$C000–$DFFF`; every other byte is kept.
    pub fn write(&mut self, addr: u16, value: u8, cgb: bool)
        requires
            old(self).wf(),
            0xC000 <= addr < 0xE000,
        ensures
            final(self).wf(),
            final(self).bytes() == old(self).bytes().update(spec_location(old(self).svbk_view(), addr, cgb), value),
            final(self).svbk_view() == old(self).svbk_view(),
    {
        let bank: usize = self.bank_index(addr, cgb);
        let offset: usize = Self::offset(addr);
        self.banks.set(bank * BANK_BYTES + offset, value);
    }

    /// Byte seen at echo address `addr` (`$E000` and up): the work-RAM byte
    /// at `$C000 | ((addr - $E000) & $1FFF)`, which for `$E000–$FDFF` is
    /// `addr - $2000`.
    pub fn read_echo(&self, addr: u16, cgb: bool) -> (v: u8)
        requires
            self.wf(),
            0xE000 <= addr,
        ensures
            v == self.bytes()[spec_location(self.svbk_view(), spec_echo_target(addr), cgb)],
            addr <= 0xFDFF ==> v == self.bytes()[spec_location(self.svbk_view(), (addr - 0x2000) as u16, cgb)],
    {
        let target: u16 = echo_wram_addr(addr);
        self.read(target, cgb)
    }

    /// Store through echo address `addr` (`$E000` and up) into the work-RAM
    /// byte it mirrors.
    pub fn write_echo(&mut self, addr: u16, value: u8, cgb: bool)
        requires
            old(self).wf(),
            0xE000 <= addr,
        ensures
            final(self).wf(),
            final(self).bytes() == old(self).bytes().update(
                spec_location(old(self).svbk_view(), spec_echo_target(addr), cgb),
                value,
            ),
            addr <= 0xFDFF ==> final(self).bytes() == old(self).bytes().update(
                spec_location(old(self).svbk_view(), (addr - 0x2000) as u16, cgb),
                value,
            ),
            final(self).svbk_view() == old(self).svbk_view(),
    {
        let target: u16 = echo_wram_addr(addr);
        self.write(target, value, cgb);
    }

    pub fn read_svbk(&self) -> (v: u8)
        ensures
            v == 0xF8 + self.svbk_view() % 8,
    {
        0xF8 + self.svbk % 8
    }

    pub fn write_svbk(&mut self, value: u8)
        requires
            old(self).wf(),
        ensures
            final(self).wf(),
            final(self).svbk_view() == spec_mapped_bank(value),
            final(self).bytes() == old(self).bytes(),
    {
        let mut bank: u8 = value % 8;
        if bank == 0 {
            bank = 1;
        }
        self.svbk = bank;
    }

    /// `$C000–$DFFF` as the CPU sees it: bank 0, then the bank mapped at `$D000`.
    pub open spec fn spec_window(self, cgb: bool) -> Seq<u8> {
        let d = if cgb { spec_mapped_bank(self.svbk_view()) } else { 1 };
        self.bytes().subrange(0, 0x1000) + self.bytes().subrange(d * 0x1000, d * 0x1000 + 0x1000)
    }

    pub fn snapshot_8k(&self, cgb: bool) -> (out: [u8; 0x2000])
        requires
            self.wf(),
        ensures
            out@ == self.spec_window(cgb),
    {
        let mut out = [0u8; 0x2000];
        let d: usize = if cgb { self.mapped_bank_d() } else { 1 };
        let mut i: usize = 0;
        while i < 0x2000
            invariant
                i <= 0x2000,
                out@.len() == 0x2000,
                self.banks@.len() == 0x8000,
                1 <= d < 8,
                forall|j: int| 0 <= j < i ==> out@[j] == if j < 0x1000 { self.banks@[j] } else {
                    self.banks@[d * 0x1000 + j - 0x1000] },
            decreases 0x2000 - i,
        {
            let v: u8 = if i < BANK_BYTES { self.banks[i] } else { self.banks[d * BANK_BYTES + i - BANK_BYTES] };
            out[i] = v;
            i = i + 1;
        }
        assert(out@ =~= self.spec_window(cgb));
        out
    }

    /// Banks after restoring the visible window from `data`.
    pub open spec fn spec_apply_window(self, data: Seq<u8>, cgb: bool) -> Seq<u8> {
        let d = if cgb { spec_mapped_bank(self.svbk_view()) } else { 1 };
        Seq::new(0x8000, |i: int| if i < 0x1000 { data[i] } else if d * 0x1000 <= i < d * 0x1000 + 0x1000 {
            data[i - d * 0x1000 + 0x1000] } else { self.bytes()[i] })
    }

    pub fn apply_snapshot_8k(&mut self, data: &[u8; 0x2000], cgb: bool)
        requires
            old(self).wf(),
        ensures
            final(self).wf(),
            final(self).bytes() == old(self).spec_apply_window(data@, cgb),
            final(self).svbk_view() == old(self).svbk_view(),
    {
        let d: usize = if cgb { self.mapped_bank_d() } else { 1 };
        let ghost target = old(self).spec_apply_window(data@, cgb);
        let mut i: usize = 0;
        while i < 0x2000
            invariant
                i <= 0x2000,
                1 <= d < 8,
                d == (if cgb { spec_mapped_bank(old(self).svbk_view()) } else { 1 }),
                self.banks@.len() == 0x8000,
                self.svbk == old(self).svbk,
                target == old(self).spec_apply_window(data@, cgb),
                forall|j: int| 0 <= j < 0x8000 ==> #[trigger] self.banks@[j] == if (j < 0x1000 && j < i) || (d
                    * 0x1000 <= j < d * 0x1000 + i - 0x1000) { target[j] } else { old(self).bytes()[j] },
            decreases 0x2000 - i,
        {
            let dst: usize = if i < BANK_BYTES { i } else { d * BANK_BYTES + i - BANK_BYTES };
            self.banks.set(dst, data[i]);
            i = i + 1;
        }
        assert(self.banks@ =~= target);
    }

    pub fn fill(&mut self, value: u8)
        requires
            old(self).wf(),
        ensures
            final(self).wf(),
            final(self).bytes() == Seq::new(0x8000, |i: int| value),
            final(self).svbk_view() == old(self).svbk_view(),
    {
        let mut i: usize = 0;
        while i < WRAM_BYTES
            invariant
                i <= WRAM_BYTES,
                self.banks@.len() == 0x8000,
                self.svbk == old(self).svbk,
                forall|j: int| 0 <= j < i ==> #[trigger] self.banks@[j] == value,
            decreases WRAM_BYTES - i,
        {
            self.banks.set(i, value);
            i = i + 1;
        }
        assert(self.banks@ =~= Seq::new(0x8000, |i: int| value));
    }

    /// Zero all banks and map `$D000` to bank 1 (`SVBK` = 1).
    pub fn power_on_reset(&mut self)
        ensures
            final(self).wf(),
            final(self).bytes() == Seq::new(0x8000, |i: int| 0u8),
            final(self).svbk_view() == 1,
    {
        *self = Self::new();
    }
}

impl Default for Wram {
    fn default() -> (w: Self)
        ensures
            w.wf(),
            w.bytes() == Seq::new(0x8000, |i: int| 0u8),
            w.svbk_view() == 1,
    {
        Self::new()
    }
}

/// A written byte reads back at the same address and bank mapping, and no
/// other address (under any mapping) sees the write unless it reaches the
/// same physical byte.
pub proof fn lemma_wram_read_after_write(svbk: u8, a: u16, b: u16, ca: bool, cb: bool, bytes: Seq<u8>, v: u8)
    requires
        0xC000 <= a < 0xE000,
        0xC000 <= b < 0xE000,
        1 <= svbk < 8,
        bytes.len() == 0x8000,
    ensures
        ({
            let after = bytes.update(spec_location(svbk, a, ca), v);
            &&& after[spec_location(svbk, a, ca)] == v
            &&& spec_location(svbk, b, cb) != spec_location(svbk, a, ca) ==> after[spec_location(svbk, b, cb)]
                == bytes[spec_location(svbk, b, cb)]
        }),
{
}

/// `$C000–$CFFF` is one physical bank whatever SVBK holds, and two `$D000`
/// addresses under different SVBK banks never share a byte.
pub proof fn lemma_wram_bank_isolation(s1: u8, s2: u8, a: u16, b: u16)
    requires
        0xC000 <= a < 0xD000,
        0xD000 <= b < 0xE000,
    ensures
        spec_location(s1, a, true) == spec_location(s2, a, false),
        spec_mapped_bank(s1) != spec_mapped_bank(s2) ==> spec_location(s1, b, true) != spec_location(s2, b, true),
{
}

/// Restoring a window snapshot taken under the same mapping leaves the banks unchanged.
pub proof fn lemma_wram_snapshot_round_trip(w: Wram, cgb: bool)
    requires
        w.wf(),
    ensures
        w.spec_apply_window(w.spec_window(cgb), cgb) == w.bytes(),
{
    w.lemma_wf();
    assert(w.spec_apply_window(w.spec_window(cgb), cgb) =~= w.bytes());
}

/// Echo RAM mirrors work RAM: under any bank mapping, `$E000–$FDFF`
/// reaches the same byte as the address `$2000` below it.
pub proof fn lemma_echo_mirrors_wram(svbk: u8, addr: u16, cgb: bool)
    requires
        0xE000 <= addr <= 0xFDFF,
    ensures
        spec_echo_target(addr) == addr - 0x2000,
        spec_location(svbk, spec_echo_target(addr), cgb) == spec_location(svbk, (addr - 0x2000) as u16, cgb),
{
    let off: u16 = (addr - 0xE000) as u16;
    assert(off <= 0x1DFF ==> (0xC000u16 | (off & 0x1FFFu16)) == 0xC000 + off) by (bit_vector);
}

} // verus!
