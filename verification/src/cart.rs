//! Cartridge: header parsing, memory bank controllers, external RAM and RTC.

pub mod cart_type;
pub mod destination;
pub mod header;
pub mod mbc;
pub mod ram_size;
pub mod report;
pub mod report_lines;
pub mod rom_size;

use vstd::prelude::*;
use cart_type::CartType;
use header::Header;
use mbc::{Mapper, RAM_BANK_SIZE, ROM_BANK_SIZE};
use mbc::mbc2::{MBC2_RAM_SIZE, mbc2_ram_index};
use mbc::mbc3::Mbc3;
use mbc::rtc::Rtc;

verus! {

/// Canonical Nintendo logo bitmap required by the boot ROM (`$0104..$0133`).
pub const NINTENDO_LOGO: [u8; 48] = [
    0xCE, 0xED, 0x66, 0x66, 0xCC, 0x0D, 0x00, 0x0B, 0x03, 0x73, 0x00, 0x83, 0x00, 0x0C, 0x00, 0x0D,
    0x00, 0x08, 0x11, 0x1F, 0x88, 0x89, 0x00, 0x0E, 0xDC, 0xCC, 0x6E, 0xE6, 0xDD, 0xDD, 0xD9, 0x99,
    0xBB, 0xBB, 0x67, 0x63, 0x6E, 0x0E, 0xEC, 0xCC, 0xDD, 0xDC, 0x99, 0x9F, 0xBB, 0xB9, 0x33, 0x3E,
];

/// Old licensee value that means the new licensee code at `$0144–$0145` is used.
pub const OLD_LICENSEE_USE_NEW: u8 = 0x33;

/// SGB flag value that enables Super Game Boy functions.
pub const SGB_FLAG_ENABLED: u8 = 0x03;


/// External / built-in save RAM length from the header (MBC2 is always 512 B).
pub open spec fn spec_ram_size_bytes(h: Header) -> nat {
    match (h.cart_type, h.ram_size) {
        (Some(t), _) if t.spec_is_mbc2() => 512,
        (_, Some(r)) => (r.spec_bank_count() * 8192) as nat,
        _ => 0,
    }
}

/// ROM banks the header declares (2 when the size byte is unknown).
pub open spec fn spec_rom_banks(h: Header) -> u16 {
    match h.rom_size {
        Some(r) => r.spec_bank_count(),
        None => 2,
    }
}

/// External RAM banks the header declares (0 when unknown).
pub open spec fn spec_ram_banks(h: Header) -> u8 {
    match h.ram_size {
        Some(r) => r.spec_bank_count(),
        None => 0,
    }
}

/// Whether the header's cartridge type is battery backed.
pub open spec fn spec_type_has_battery(h: Header) -> bool {
    h.cart_type matches Some(t) && t.spec_has_battery()
}

/// Whether the header's cartridge type has a real-time clock.
pub open spec fn spec_type_has_rtc(h: Header) -> bool {
    h.cart_type matches Some(t) && t.spec_has_rtc()
}

/// Byte of `rom` at `offset`, `$FF` past its end.
pub open spec fn spec_rom_byte(rom: Seq<u8>, offset: int) -> u8 {
    if 0 <= offset < rom.len() { rom[offset] } else { 0xFF }
}

/// `data` copied into a RAM of `len` bytes: truncated, or zero-padded.
pub open spec fn spec_fill_ram(data: Seq<u8>, len: nat) -> Seq<u8> {
    Seq::new(len, |i: int| if i < data.len() { data[i] } else { 0u8 })
}

#[verifier::external_body]
/// `SystemTime::elapsed` on the Unix epoch, in whole seconds (0 if the clock
/// reads before the epoch). The result depends on the wall clock; nothing is
/// claimed of it.
fn unix_now() -> u64 {
    match std::time::UNIX_EPOCH.elapsed() {
        Ok(d) => d.as_secs(),
        Err(_) => 0,
    }
}

/// External / built-in save RAM length from the header (MBC2 is always 512 B).
fn ram_size_bytes(header: &Header) -> (n: usize)
    ensures
        n == spec_ram_size_bytes(*header),
{
    let mbc2: bool = match header.cart_type {
        Some(t) => t.is_mbc2(),
        None => false,
    };
    if mbc2 {
        return MBC2_RAM_SIZE;
    }
    match header.ram_size {
        Some(r) => r.size_bytes(),
        None => 0,
    }
}

/// Loaded ROM image, parsed header, optional external RAM, and bank controller.
/// Whether `m` is the kind of controller cartridge type `t` has.
pub open spec fn controller_fits(t: CartType, m: Mapper) -> bool {
    if t.spec_is_rom_mapper() {
        m is RomOnly
    } else if t.spec_is_mbc1() {
        m is Mbc1
    } else if t.spec_is_mbc2() {
        m is Mbc2
    } else if t.spec_is_mbc3() {
        m is Mbc3
    } else if t.spec_is_mbc5() {
        m is Mbc5
    } else {
        false
    }
}

/// A well-formed cartridge whose type has a clock has an MBC3 controller.
pub proof fn lemma_clock_type_has_mbc3(c: Cartridge)
    requires
        c.wf(),
        spec_type_has_rtc(c.header_view()),
    ensures
        c.mapper_view() is Mbc3,
{
}

pub struct Cartridge {
    pub rom: Vec<u8>,
    pub header: Header,
    ram: Vec<u8>,
    mapper: Mapper,
    /// Set when battery-backed external RAM is written (for `.sav` flush).
    ram_dirty: bool,
}

impl Cartridge {
    /// ROM image.
    pub closed spec fn rom_view(self) -> Seq<u8> {
        self.rom@
    }

    /// Parsed header.
    pub closed spec fn header_view(self) -> Header {
        self.header
    }

    /// External RAM contents.
    pub closed spec fn ram_view(self) -> Seq<u8> {
        self.ram@
    }

    /// Bank controller state.
    pub closed spec fn mapper_view(self) -> Mapper {
        self.mapper
    }

    /// The controller is the one the header's cartridge type names.
    pub open spec fn wf(self) -> bool {
        match self.header_view().cart_type {
            Some(t) => controller_fits(t, self.mapper_view()),
            None => false,
        }
    }

    /// Whether battery RAM changed since the last load or flush.
    pub closed spec fn ram_dirty_view(self) -> bool {
        self.ram_dirty
    }

    pub open spec fn spec_switchable_rom_bank(self) -> u16 {
        let banks: u16 = if spec_rom_banks(self.header_view()) == 0 { 1 } else { spec_rom_banks(self.header_view()) };
        (self.mapper_view().spec_switchable_rom_bank() % banks) as u16
    }

    pub open spec fn spec_fixed_rom_bank(self) -> u16 {
        let banks: u16 = if spec_rom_banks(self.header_view()) == 0 { 1 } else { spec_rom_banks(self.header_view()) };
        (self.mapper_view().spec_fixed_rom_bank() % banks) as u16
    }

    /// Offset into external RAM that a banked access to `addr` reaches, if any.
    pub open spec fn spec_ram_offset(self, addr: u16) -> Option<int> {
        match self.mapper_view().spec_active_ram_bank() {
            None => None,
            Some(bank) => {
                let banks = spec_ram_banks(self.header_view());
                if banks == 0 {
                    None
                } else {
                    Some((bank % banks) * 0x2000 + (addr - 0xA000))
                }
            },
        }
    }

    pub open spec fn spec_read_external_ram(self, addr: u16) -> u8 {
        match (self.mapper_view().spec_read_rtc(), self.mapper_view()) {
            (Some(v), _) => v,
            (None, Mapper::Mbc2(m)) => m.spec_read_ram(addr, self.ram_view()),
            _ => match self.spec_ram_offset(addr) {
                None => 0xFF,
                Some(off) => spec_rom_byte(self.ram_view(), off),
            },
        }
    }

    /// Byte the CPU reads at `addr` from the cartridge.
    pub open spec fn spec_read8(self, addr: u16) -> u8 {
        if addr <= 0x3FFF {
            spec_rom_byte(self.rom_view(), self.spec_fixed_rom_bank() * 0x4000 + addr)
        } else if addr <= 0x7FFF {
            spec_rom_byte(self.rom_view(), self.spec_switchable_rom_bank() * 0x4000 + (addr - 0x4000))
        } else if 0xA000 <= addr <= 0xBFFF {
            self.spec_read_external_ram(addr)
        } else {
            0xFF
        }
    }

    pub open spec fn spec_has_battery_backed_ram(self) -> bool {
        spec_type_has_battery(self.header_view()) && self.ram_view().len() > 0
    }

    /// The `.sav` image for this cartridge when the clock reads `now`: SRAM,
    /// then the RTC trailer when the cartridge has a clock.
    pub open spec fn spec_save_image(self, now: u64) -> Seq<u8> {
        match self.mapper_view() {
            Mapper::Mbc3(m) => if spec_type_has_rtc(self.header_view()) {
                self.ram_view() + Rtc { unix_secs: now, ..m.rtc }.save_image()
            } else {
                self.ram_view()
            },
            _ => self.ram_view(),
        }
    }

    /// Cartridge from a ROM image and its parsed header; fails with a
    /// message when the header names a controller that is not implemented.
    pub fn from_parts(rom: Vec<u8>, header: Header) -> (r: Result<Self, String>)
        ensures
            r matches Ok(c) ==> c.wf(),
            match header.cart_type {
                None => r is Err && r->Err_0@ == mbc::unknown_mapper_message(header.cart_type_byte),
                Some(t) => if t.spec_is_supported() {
                    &&& r is Ok
                    &&& r->Ok_0.rom_view() == rom@
                    &&& r->Ok_0.header_view() == header
                    &&& r->Ok_0.ram_view() == Seq::new(spec_ram_size_bytes(header), |i: int| 0u8)
                    &&& r->Ok_0.mapper_view() == Mapper::spec_for_cart_type(t)
                    &&& !r->Ok_0.ram_dirty_view()
                } else {
                    r is Err && r->Err_0@ == mbc::unsupported_mapper_message(t)
                },
            },
    {
        let mapper = match Mapper::try_for_cart_type(header.cart_type, header.cart_type_byte) {
            Ok(m) => m,
            Err(e) => return Err(e),
        };
        let ram_bytes: usize = ram_size_bytes(&header);
        let mut ram: Vec<u8> = Vec::new();
        let mut i: usize = 0;
        while i < ram_bytes
            invariant
                i <= ram_bytes,
                ram@ == Seq::new(i as nat, |j: int| 0u8),
            decreases ram_bytes - i,
        {
            ram.push(0);
            i = i + 1;
            assert(ram@ =~= Seq::new(i as nat, |j: int| 0u8));
        }
        Ok(Self { rom, header, ram, mapper, ram_dirty: false })
    }

    /// True when this cart has battery-backed external RAM worth persisting.
    pub fn has_battery_backed_ram(&self) -> (r: bool)
        ensures
            r == self.spec_has_battery_backed_ram(),
    {
        let battery: bool = match self.header.cart_type {
            Some(t) => t.has_battery(),
            None => false,
        };
        battery && self.ram.len() > 0
    }

    /// True when this cart includes an MBC3 real-time clock.
    pub fn has_rtc(&self) -> (r: bool)
        ensures
            r == spec_type_has_rtc(self.header_view()),
    {
        match self.header.cart_type {
            Some(t) => t.has_rtc(),
            None => false,
        }
    }

    /// Battery SRAM and/or RTC that should participate in `.sav` I/O.
    pub fn needs_save(&self) -> (r: bool)
        ensures
            r == (self.spec_has_battery_backed_ram() || spec_type_has_rtc(self.header_view())),
    {
        self.has_battery_backed_ram() || self.has_rtc()
    }

    /// External cartridge RAM image (SRAM), length from the header RAM size.
    pub fn external_ram(&self) -> (r: &[u8])
        ensures
            r@ == self.ram_view(),
    {
        self.ram.as_slice()
    }

    /// Whether external RAM has been written since last load/clear.
    pub fn is_ram_dirty(&self) -> (r: bool)
        ensures
            r == self.ram_dirty_view(),
    {
        self.ram_dirty
    }

    pub open spec fn spec_rtc_dirty(self) -> bool {
        self.mapper_view() matches Mapper::Mbc3(m) && m.rtc.dirty
    }

    pub fn is_rtc_dirty(&self) -> (r: bool)
        ensures
            r == self.spec_rtc_dirty(),
    {
        match &self.mapper {
            Mapper::Mbc3(m) => m.rtc.is_dirty(),
            _ => false,
        }
    }

    /// SRAM or RTC changed since last successful flush/load.
    pub fn is_save_dirty(&self) -> (r: bool)
        ensures
            r == (self.ram_dirty_view() || self.spec_rtc_dirty()),
    {
        self.ram_dirty || self.is_rtc_dirty()
    }

    pub fn clear_ram_dirty(&mut self)
        ensures
            old(self).wf() ==> final(self).wf(),
            !final(self).ram_dirty_view(),
            final(self).ram_view() == old(self).ram_view(),
            final(self).mapper_view() == old(self).mapper_view(),
            final(self).rom_view() == old(self).rom_view(),
            final(self).header_view() == old(self).header_view(),
    {
        self.ram_dirty = false;
    }

    pub open spec fn spec_with_rtc_dirty(m: Mapper, dirty: bool) -> Mapper {
        match m {
            Mapper::Mbc3(m3) => Mapper::Mbc3(Mbc3 { rtc: Rtc { dirty: dirty, ..m3.rtc }, ..m3 }),
            _ => m,
        }
    }

    pub fn clear_save_dirty(&mut self)
        ensures
            old(self).wf() ==> final(self).wf(),
            !final(self).ram_dirty_view(),
            final(self).ram_view() == old(self).ram_view(),
            final(self).mapper_view() == Self::spec_with_rtc_dirty(old(self).mapper_view(), false),
            final(self).rom_view() == old(self).rom_view(),
            final(self).header_view() == old(self).header_view(),
    {
        self.ram_dirty = false;
        match &mut self.mapper {
            Mapper::Mbc3(m) => m.rtc.clear_dirty(),
            _ => {},
        }
    }

    /// Replace external RAM from a `.sav` (truncates or zero-pads to cart size).
    pub fn load_external_ram(&mut self, data: &[u8])
        ensures
            old(self).wf() ==> final(self).wf(),
            old(self).ram_view().len() == 0 ==> final(self).ram_view() == old(self).ram_view()
                && final(self).ram_dirty_view() == old(self).ram_dirty_view(),
            old(self).ram_view().len() > 0 ==> final(self).ram_view() == spec_fill_ram(data@, old(self).ram_view().len())
                && !final(self).ram_dirty_view(),
            final(self).mapper_view() == old(self).mapper_view(),
            final(self).rom_view() == old(self).rom_view(),
            final(self).header_view() == old(self).header_view(),
    {
        if self.ram.len() == 0 {
            return;
        }
        self.fill_ram(data);
        self.ram_dirty = false;
    }

    /// Copy `data` into external RAM, zero-padding what it does not cover.
    fn fill_ram(&mut self, data: &[u8])
        ensures
            final(self).ram_view() == spec_fill_ram(data@, old(self).ram_view().len()),
            final(self).mapper_view() == old(self).mapper_view(),
            final(self).ram_dirty_view() == old(self).ram_dirty_view(),
            final(self).rom_view() == old(self).rom_view(),
            final(self).header_view() == old(self).header_view(),
    {
        let len: usize = self.ram.len();
        let mut i: usize = 0;
        while i < len
            invariant
                i <= len,
                self.ram@.len() == len,
                forall|j: int| 0 <= j < i ==> self.ram@[j] == #[trigger] spec_fill_ram(data@, len as nat)[j],
                self.mapper == old(self).mapper,
                self.ram_dirty == old(self).ram_dirty,
                self.rom == old(self).rom,
                self.header == old(self).header,
                len == old(self).ram@.len(),
            decreases len - i,
        {
            let v: u8 = if i < data.len() { data[i] } else { 0 };
            self.ram.set(i, v);
            i = i + 1;
        }
        assert(self.ram@ =~= spec_fill_ram(data@, len as nat));
    }

    /// Cartridge RAM, controller and RAM-dirty flag after loading the save
    /// image `data` when the clock reads `now`.
    pub open spec fn spec_load_save_image(self, data: Seq<u8>, now: u64) -> (Seq<u8>, Mapper, bool) {
        let len = self.ram_view().len();
        let ram = if len > 0 { spec_fill_ram(data, len) } else { self.ram_view() };
        let dirty = if len > 0 { false } else { self.ram_dirty_view() };
        let mapper = match self.mapper_view() {
            Mapper::Mbc3(m) => if spec_type_has_rtc(self.header_view()) {
                let rtc = if data.len() >= len + 48 {
                    m.rtc.loaded(data.subrange(len as int, len as int + 48)).spec_synced(now)
                } else {
                    Rtc { unix_secs: now, ..m.rtc }
                };
                Mapper::Mbc3(Mbc3 { rtc: Rtc { dirty: false, ..rtc }, ..m })
            } else {
                self.mapper_view()
            },
            _ => self.mapper_view(),
        };
        (ram, mapper, dirty)
    }

    /// Controller after saving when the clock reads `now` (the RTC stamp is updated).
    pub open spec fn spec_mapper_after_save(self, now: u64) -> Mapper {
        match self.mapper_view() {
            Mapper::Mbc3(m) => if spec_type_has_rtc(self.header_view()) {
                Mapper::Mbc3(Mbc3 { rtc: Rtc { unix_secs: now, ..m.rtc }, ..m })
            } else {
                self.mapper_view()
            },
            _ => self.mapper_view(),
        }
    }

    /// Load SRAM (+ optional 48-byte RTC trailer) from a save image.
    pub fn load_save_image(&mut self, data: &[u8])
        ensures
            old(self).wf() ==> final(self).wf(),
            exists|now: u64| (final(self).ram_view(), final(self).mapper_view(), final(self).ram_dirty_view())
                == #[trigger] old(self).spec_load_save_image(data@, now),
            final(self).rom_view() == old(self).rom_view(),
            final(self).header_view() == old(self).header_view(),
    {
        let now: u64 = unix_now();
        self.load_save_image_at(data, now);
    }

    /// Load a save image when the wall clock reads `now` (Unix seconds).
    pub fn load_save_image_at(&mut self, data: &[u8], now: u64)
        ensures
            old(self).wf() ==> final(self).wf(),
            (final(self).ram_view(), final(self).mapper_view(), final(self).ram_dirty_view())
                == old(self).spec_load_save_image(data@, now),
            final(self).rom_view() == old(self).rom_view(),
            final(self).header_view() == old(self).header_view(),
    {
        let ram_len: usize = self.ram.len();
        if ram_len > 0 {
            let take: usize = if data.len() >= ram_len { ram_len } else { data.len() };
            let ram_part: &[u8] = vstd::slice::slice_subrange(data, 0, take);
            self.load_external_ram(ram_part);
            assert(self.ram@ =~= spec_fill_ram(data@, ram_len as nat));
        }
        if self.has_rtc() {
            match &mut self.mapper {
                Mapper::Mbc3(m) => {
                    if data.len() >= ram_len && data.len() - ram_len >= 48 {
                        let trailer: &[u8] = vstd::slice::slice_subrange(data, ram_len, ram_len + 48);
                        m.rtc.load_save_bytes(trailer);
                        m.rtc.sync_to_unix(now);
                    } else {
                        m.rtc.set_unix_secs(now);
                    }
                    m.rtc.clear_dirty();
                },
                _ => {},
            }
        }
    }

    /// Build `.sav` bytes: SRAM followed by RTC trailer when present.
    pub fn save_image(&mut self) -> (out: Vec<u8>)
        ensures
            old(self).wf() ==> final(self).wf(),
            exists|now: u64| out@ == #[trigger] old(self).spec_save_image(now)
                && final(self).mapper_view() == old(self).spec_mapper_after_save(now),
            final(self).ram_view() == old(self).ram_view(),
            final(self).ram_dirty_view() == old(self).ram_dirty_view(),
            final(self).rom_view() == old(self).rom_view(),
            final(self).header_view() == old(self).header_view(),
    {
        let now: u64 = unix_now();
        self.save_image_at(now)
    }

    /// Save image when the wall clock reads `now` (Unix seconds).
    pub fn save_image_at(&mut self, now: u64) -> (out: Vec<u8>)
        ensures
            old(self).wf() ==> final(self).wf(),
            out@ == old(self).spec_save_image(now),
            final(self).mapper_view() == old(self).spec_mapper_after_save(now),
            final(self).ram_view() == old(self).ram_view(),
            final(self).ram_dirty_view() == old(self).ram_dirty_view(),
            final(self).rom_view() == old(self).rom_view(),
            final(self).header_view() == old(self).header_view(),
    {
        let mut out: Vec<u8> = Vec::new();
        let mut i: usize = 0;
        while i < self.ram.len()
            invariant
                i <= self.ram@.len(),
                out@ == self.ram@.take(i as int),
            decreases self.ram@.len() - i,
        {
            out.push(self.ram[i]);
            i = i + 1;
            assert(out@ =~= self.ram@.take(i as int));
        }
        assert(out@ =~= self.ram@);
        if self.has_rtc() {
            match &mut self.mapper {
                Mapper::Mbc3(m) => {
                    m.rtc.set_unix_secs(now);
                    let trailer: [u8; 48] = m.rtc.to_save_bytes();
                    let ghost base = out@;
                    let mut k: usize = 0;
                    while k < 48
                        invariant
                            k <= 48,
                            out@ == base + trailer@.take(k as int),
                        decreases 48 - k,
                    {
                        out.push(trailer[k]);
                        k = k + 1;
                        assert(out@ =~= base + trailer@.take(k as int));
                    }
                    assert(trailer@.take(48) =~= trailer@);
                },
                _ => {},
            }
        }
        out
    }

    /// Advance mapper-side timers (MBC3 RTC) by CPU T-cycles.
    pub fn tick(&mut self, t_cycles: u32)
        ensures
            old(self).wf() ==> final(self).wf(),
            final(self).mapper_view() == old(self).mapper_view().spec_ticked(t_cycles),
            final(self).ram_view() == old(self).ram_view(),
            final(self).ram_dirty_view() == old(self).ram_dirty_view(),
            final(self).rom_view() == old(self).rom_view(),
            final(self).header_view() == old(self).header_view(),
    {
        self.mapper.tick(t_cycles);
    }

    /// Return the length of the ROM data.
    pub fn len(&self) -> (n: usize)
        ensures
            n == self.rom_view().len(),
    {
        self.rom.len()
    }

    pub fn is_empty(&self) -> (r: bool)
        ensures
            r == (self.rom_view().len() == 0),
    {
        self.rom.len() == 0
    }

    pub fn rom_bytes(&self) -> (r: &[u8])
        ensures
            r@ == self.rom_view(),
    {
        self.rom.as_slice()
    }

    pub fn mark_save_dirty(&mut self)
        ensures
            old(self).wf() ==> final(self).wf(),
            final(self).ram_dirty_view() == (old(self).ram_dirty_view() || old(self).spec_has_battery_backed_ram()),
            final(self).mapper_view() == Self::spec_with_rtc_dirty(old(self).mapper_view(), true),
            final(self).ram_view() == old(self).ram_view(),
            final(self).rom_view() == old(self).rom_view(),
            final(self).header_view() == old(self).header_view(),
    {
        if self.has_battery_backed_ram() {
            self.ram_dirty = true;
        }
        match &mut self.mapper {
            Mapper::Mbc3(m) => m.rtc.mark_dirty(),
            _ => {},
        }
    }

    /// Reset mapper banking to power-on; preserve external SRAM and RTC clock contents.
    pub fn power_on_reset_mapper(&mut self)
        ensures
            old(self).wf() ==> final(self).wf(),
            final(self).mapper_view() == old(self).mapper_view().spec_power_on_reset(),
            final(self).ram_view() == old(self).ram_view(),
            final(self).ram_dirty_view() == old(self).ram_dirty_view(),
            final(self).rom_view() == old(self).rom_view(),
            final(self).header_view() == old(self).header_view(),
    {
        self.mapper.power_on_reset();
    }

    pub fn snapshot_mapper(&self) -> (s: crate::snapshot::MapperStateV1)
        ensures
            self.mapper_view() is RomOnly <==> s is RomOnly,
            self.mapper_view() matches Mapper::Mbc1(m) ==> s == crate::snapshot::MapperStateV1::Mbc1(m.spec_snapshot()),
            self.mapper_view() matches Mapper::Mbc2(m) ==> s == crate::snapshot::MapperStateV1::Mbc2(m.spec_snapshot()),
            self.mapper_view() matches Mapper::Mbc3(m) ==> s == crate::snapshot::MapperStateV1::Mbc3(m.spec_snapshot()),
            self.mapper_view() matches Mapper::Mbc5(m) ==> s == crate::snapshot::MapperStateV1::Mbc5(m.spec_snapshot()),
    {
        self.mapper.snapshot()
    }

    pub fn apply_mapper(&mut self, state: &crate::snapshot::MapperStateV1)
        ensures
            old(self).wf() ==> final(self).wf(),
            final(self).mapper_view() == old(self).mapper_view().spec_apply(*state),
            final(self).ram_view() == old(self).ram_view(),
            final(self).ram_dirty_view() == old(self).ram_dirty_view(),
            final(self).rom_view() == old(self).rom_view(),
            final(self).header_view() == old(self).header_view(),
    {
        self.mapper.apply(state);
    }

    pub fn snapshot_ram(&self) -> (r: Vec<u8>)
        ensures
            r@ == self.ram_view(),
    {
        let mut out: Vec<u8> = Vec::new();
        let mut i: usize = 0;
        while i < self.ram.len()
            invariant
                i <= self.ram@.len(),
                out@ == self.ram@.take(i as int),
            decreases self.ram@.len() - i,
        {
            out.push(self.ram[i]);
            i = i + 1;
            assert(out@ =~= self.ram@.take(i as int));
        }
        assert(out@ =~= self.ram@);
        out
    }

    /// Restore external RAM from a snapshot (truncates or zero-pads).
    pub fn apply_ram(&mut self, ram: &[u8])
        ensures
            old(self).wf() ==> final(self).wf(),
            final(self).ram_view() == spec_fill_ram(ram@, old(self).ram_view().len()),
            final(self).mapper_view() == old(self).mapper_view(),
            final(self).ram_dirty_view() == old(self).ram_dirty_view(),
            final(self).rom_view() == old(self).rom_view(),
            final(self).header_view() == old(self).header_view(),
    {
        self.fill_ram(ram);
    }

    /// Boot ROM–style header validity (logo + header checksum).
    pub fn header_ok(&self) -> (r: bool)
        ensures
            r == (self.header_view().logo_ok && self.header_view().header_checksum
                == self.header_view().computed_header_checksum),
    {
        self.header.is_valid()
    }

    fn rom_banks(&self) -> (n: u16)
        ensures
            n == (if spec_rom_banks(self.header_view()) == 0 { 1 } else { spec_rom_banks(self.header_view()) }),
    {
        let banks: u16 = match self.header.rom_size {
            Some(r) => r.bank_count(),
            None => 2,
        };
        if banks == 0 { 1 } else { banks }
    }

    pub fn switchable_rom_bank(&self) -> (b: u16)
        ensures
            b == self.spec_switchable_rom_bank(),
    {
        let raw: u16 = self.mapper.switchable_rom_bank();
        // Mask into available banks (Pokémon Red: 64 banks, power of two).
        raw % self.rom_banks()
    }

    fn fixed_rom_bank(&self) -> (b: u16)
        ensures
            b == self.spec_fixed_rom_bank(),
    {
        let raw: u16 = self.mapper.fixed_rom_bank();
        raw % self.rom_banks()
    }

    /// File offset for a CPU address in the current ROM mapping, if in `$0000–$7FFF`.
    pub fn physical_rom_offset(&self, addr: u16) -> (r: Option<usize>)
        ensures
            addr <= 0x3FFF ==> r == Some((self.spec_fixed_rom_bank() * 0x4000 + addr) as usize),
            0x4000 <= addr <= 0x7FFF ==> r == Some((self.spec_switchable_rom_bank() * 0x4000 + (addr - 0x4000)) as usize),
            addr > 0x7FFF ==> r is None,
    {
        if addr <= 0x3FFF {
            let bank: usize = self.fixed_rom_bank() as usize;
            Some(bank * ROM_BANK_SIZE + addr as usize)
        } else if addr <= 0x7FFF {
            let bank: usize = self.switchable_rom_bank() as usize;
            Some(bank * ROM_BANK_SIZE + (addr as usize - 0x4000))
        } else {
            None
        }
    }

    fn rom_byte(&self, offset: usize) -> (b: u8)
        ensures
            b == spec_rom_byte(self.rom_view(), offset as int),
    {
        if offset < self.rom.len() { self.rom[offset] } else { 0xFF }
    }

    fn ram_offset(&self, addr: u16) -> (r: Option<usize>)
        requires
            0xA000 <= addr <= 0xBFFF,
        ensures
            r matches Some(o) ==> self.spec_ram_offset(addr) == Some(o as int),
            r is None ==> self.spec_ram_offset(addr) is None,
    {
        let bank: u8 = match self.mapper.active_ram_bank() {
            Some(b) => b,
            None => return None,
        };
        let banks: u8 = match self.header.ram_size {
            Some(r) => r.bank_count(),
            None => 0,
        };
        if banks == 0 {
            return None;
        }
        let bank: usize = (bank % banks) as usize;
        Some(bank * RAM_BANK_SIZE + (addr as usize - 0xA000))
    }

    fn read_external_ram(&self, addr: u16) -> (v: u8)
        requires
            0xA000 <= addr <= 0xBFFF,
        ensures
            v == self.spec_read_external_ram(addr),
    {
        match self.mapper.mbc3_read_rtc() {
            Some(v) => return v,
            None => {},
        }
        if let Mapper::Mbc2(m) = &self.mapper {
            return m.read_ram(addr, self.ram.as_slice());
        }
        match self.ram_offset(addr) {
            None => 0xFF,
            Some(off) => if off < self.ram.len() { self.ram[off] } else { 0xFF },
        }
    }

    pub fn read8(&self, addr: u16) -> (v: u8)
        ensures
            v == self.spec_read8(addr),
    {
        if addr <= 0x3FFF {
            let bank: usize = self.fixed_rom_bank() as usize;
            self.rom_byte(bank * ROM_BANK_SIZE + addr as usize)
        } else if addr <= 0x7FFF {
            let bank: usize = self.switchable_rom_bank() as usize;
            self.rom_byte((addr as usize - 0x4000) + bank * ROM_BANK_SIZE)
        } else if 0xA000 <= addr && addr <= 0xBFFF {
            self.read_external_ram(addr)
        } else {
            0xFF
        }
    }

    /// RAM, controller and dirty flag after a CPU write into `$A000–$BFFF`.
    pub open spec fn spec_write_external_ram(self, addr: u16, value: u8) -> (Seq<u8>, Mapper, bool) {
        let ram = self.ram_view();
        let mapper = self.mapper_view();
        let dirty = self.ram_dirty_view();
        let battery = spec_type_has_battery(self.header_view());
        match mapper {
            Mapper::Mbc3(m) => if m.spec_selected_rtc_reg() is Some {
                (ram, Mapper::Mbc3(Mbc3 { rtc: m.rtc.spec_write_reg(m.ram_bank_or_rtc, value), ..m }), dirty)
            } else {
                self.spec_write_banked_ram(addr, value)
            },
            Mapper::Mbc2(m) => if m.spec_ram_write_lands(addr, ram.len()) {
                (ram.update(mbc2_ram_index(addr), value % 16), mapper, dirty || battery)
            } else {
                (ram, mapper, dirty)
            },
            _ => self.spec_write_banked_ram(addr, value),
        }
    }

    pub open spec fn spec_write_banked_ram(self, addr: u16, value: u8) -> (Seq<u8>, Mapper, bool) {
        let ram = self.ram_view();
        let battery = spec_type_has_battery(self.header_view());
        match self.spec_ram_offset(addr) {
            Some(off) => if off < ram.len() {
                (ram.update(off, value), self.mapper_view(), self.ram_dirty_view() || battery)
            } else {
                (ram, self.mapper_view(), self.ram_dirty_view())
            },
            None => (ram, self.mapper_view(), self.ram_dirty_view()),
        }
    }

    /// RAM, controller and dirty flag after a CPU write of `value` to `addr`.
    pub open spec fn spec_write8(self, addr: u16, value: u8) -> (Seq<u8>, Mapper, bool) {
        if addr <= 0x7FFF {
            (self.ram_view(), self.mapper_view().spec_write_reg(addr, value), self.ram_dirty_view())
        } else if 0xA000 <= addr <= 0xBFFF {
            self.spec_write_external_ram(addr, value)
        } else {
            (self.ram_view(), self.mapper_view(), self.ram_dirty_view())
        }
    }

    fn write_external_ram(&mut self, addr: u16, value: u8)
        requires
            0xA000 <= addr <= 0xBFFF,
        ensures
            (final(self).ram_view(), final(self).mapper_view(), final(self).ram_dirty_view())
                == old(self).spec_write_external_ram(addr, value),
            final(self).rom_view() == old(self).rom_view(),
            final(self).header_view() == old(self).header_view(),
    {
        if self.mapper.mbc3_write_rtc(value) {
            return;
        }
        let battery: bool = match self.header.cart_type {
            Some(t) => t.has_battery(),
            None => false,
        };
        if let Mapper::Mbc2(m) = self.mapper {
            if m.write_ram(addr, value, &mut self.ram) && battery {
                self.ram_dirty = true;
            }
            return;
        }
        let off: usize = match self.ram_offset(addr) {
            Some(o) => o,
            None => return,
        };
        if off < self.ram.len() {
            self.ram.set(off, value);
            if battery {
                self.ram_dirty = true;
            }
        }
    }

    pub fn write8(&mut self, addr: u16, value: u8)
        ensures
            old(self).wf() ==> final(self).wf(),
            (final(self).ram_view(), final(self).mapper_view(), final(self).ram_dirty_view())
                == old(self).spec_write8(addr, value),
            final(self).rom_view() == old(self).rom_view(),
            final(self).header_view() == old(self).header_view(),
    {
        if addr <= 0x7FFF {
            self.mapper.write_reg(addr, value);
        } else if 0xA000 <= addr && addr <= 0xBFFF {
            self.write_external_ram(addr, value);
        }
    }

    /// ROM-only cartridge for tests (flat mapping, no external RAM / MBC).
    pub fn rom_only(rom: Vec<u8>) -> (c: Self)
        requires
            rom@.len() <= usize::MAX,
        ensures
            c.rom_view().len() == if rom@.len() < 0x150 { 0x150 } else { rom@.len() },
            forall|i: int| 0 <= i < c.rom_view().len() && i != 0x147 && i != 0x148 && i != 0x149 ==> #[trigger] c.rom_view()[i]
                == if i < rom@.len() { rom@[i] } else { 0u8 },
            c.rom_view()[0x147] == 0 && c.rom_view()[0x148] == 0 && c.rom_view()[0x149] == 0,
            header::header_fields_ok(c.header_view(), c.rom_view()),
            c.ram_view().len() == 0,
            c.mapper_view() == Mapper::RomOnly(mbc::none::NoMbc),
            !c.ram_dirty_view(),
    {
        let mut rom = rom;
        if rom.len() < 0x150 {
            rom.resize(0x150, 0);
        }
        rom.set(0x0147, 0x00);
        rom.set(0x0148, 0x00);
        rom.set(0x0149, 0x00);
        let header = match Header::parse(rom.as_slice()) {
            Ok(h) => h,
            Err(_) => {
                return vstd::pervasive::unreached();
            },
        };
        assert(header.cart_type == Some(CartType::RomOnly));
        assert(header.ram_size == Some(ram_size::RamSize::NoRam));
        match Self::from_parts(rom, header) {
            Ok(c) => c,
            Err(_) => vstd::pervasive::unreached(),
        }
    }
}

/// Loading a cartridge's own save image back restores its external RAM
/// exactly. For MBC3 cartridges with a clock, the clock registers come back
/// as saved (running registers reduced to their ranges) with the stamp of the
/// save, then synced to the clock reading at load time; the clock is left clean.
pub proof fn lemma_save_load_round_trip(saver: Cartridge, loader: Cartridge, now: u64, later: u64)
    requires
        loader.ram_view().len() == saver.ram_view().len(),
        spec_type_has_rtc(loader.header_view()) == spec_type_has_rtc(saver.header_view()),
        saver.mapper_view() is Mbc3 <==> loader.mapper_view() is Mbc3,
    ensures
        ({
            let (ram2, mapper2, dirty2) = loader.spec_load_save_image(saver.spec_save_image(now), later);
            &&& ram2 == saver.ram_view()
            &&& (spec_type_has_rtc(saver.header_view()) && saver.mapper_view() is Mbc3) ==> {
                let ms = saver.mapper_view()->Mbc3_0;
                let ml = loader.mapper_view()->Mbc3_0;
                let r = ml.rtc.loaded(Rtc { unix_secs: now, ..ms.rtc }.save_image());
                &&& r.s == ms.rtc.s % 60
                &&& r.m == ms.rtc.m % 60
                &&& r.h == ms.rtc.h % 24
                &&& r.dl == ms.rtc.dl
                &&& r.dh == ms.rtc.dh & 0xC1
                &&& r.latched == ms.rtc.latched
                &&& r.unix_secs == now
                &&& mapper2 == Mapper::Mbc3(Mbc3 { rtc: Rtc { dirty: false, ..r.spec_synced(later) }, ..ml })
            }
        }),
{
    let img = saver.spec_save_image(now);
    let len = saver.ram_view().len();
    if len > 0 {
        assert(spec_fill_ram(img, len) =~= saver.ram_view());
    } else {
        assert(loader.ram_view() =~= saver.ram_view());
    }
    if spec_type_has_rtc(saver.header_view()) && saver.mapper_view() is Mbc3 {
        let ms = saver.mapper_view()->Mbc3_0;
        let ml = loader.mapper_view()->Mbc3_0;
        let saved = Rtc { unix_secs: now, ..ms.rtc };
        assert(img.subrange(len as int, len as int + 48) =~= saved.save_image());
        mbc::rtc::lemma_rtc_save_round_trip(saved, ml.rtc);
    }
}

/// A byte written to external RAM reads back from the same address: whole
/// for banked RAM, as its low nibble under `$F0` for MBC2's built-in RAM.
/// While no RAM bank is enabled (and no clock register is selected), a write
/// changes nothing and reads give `$FF`.
pub proof fn lemma_external_ram_read_after_write(c1: Cartridge, c2: Cartridge, addr: u16, v: u8)
    requires
        0xA000 <= addr <= 0xBFFF,
        (c2.ram_view(), c2.mapper_view(), c2.ram_dirty_view()) == c1.spec_write8(addr, v),
        c2.header_view() == c1.header_view(),
    ensures
        c1.mapper_view().spec_read_rtc() is None && !(c1.mapper_view() is Mbc2) ==> match c1.spec_ram_offset(addr) {
            Some(off) => off < c1.ram_view().len() ==> c2.spec_read8(addr) == v,
            None => c2.ram_view() == c1.ram_view() && c2.spec_read8(addr) == 0xFF,
        },
        c1.mapper_view() matches Mapper::Mbc2(m) && m.spec_ram_write_lands(addr, c1.ram_view().len())
            ==> c2.spec_read8(addr) == v % 16 + 0xF0,
{
}

} // verus!
