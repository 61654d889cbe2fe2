use graycart::bus::map::{
    dma_conflicts_with, echo_wram_addr, io_stored_value, oam_dma_budget, region, tick_slices,
    Region,
};
use graycart::bus::ports::{
    io_read, io_write, IoRead, IoWrite, BGPD, BGPI, BOOT_DISABLE, FF72, FF74, HDMA1, HDMA5, KEY0,
    KEY1, OBPD, OBPI, OPRI, VBK,
};
use graycart::bus::wram::{Wram, SVBK};

#[test]
fn region_boundaries() {
    assert_eq!(region(0x0000), Region::Cartridge);
    assert_eq!(region(0x7FFF), Region::Cartridge);
    assert_eq!(region(0x8000), Region::Vram);
    assert_eq!(region(0x9FFF), Region::Vram);
    assert_eq!(region(0xA000), Region::Cartridge);
    assert_eq!(region(0xBFFF), Region::Cartridge);
    assert_eq!(region(0xC000), Region::Wram);
    assert_eq!(region(0xDFFF), Region::Wram);
    assert_eq!(region(0xE000), Region::EchoWram);
    assert_eq!(region(0xFDFF), Region::EchoWram);
    assert_eq!(region(0xFE00), Region::Oam);
    assert_eq!(region(0xFE9F), Region::Oam);
    assert_eq!(region(0xFEA0), Region::Unusable);
    assert_eq!(region(0xFEFF), Region::Unusable);
    assert_eq!(region(0xFF00), Region::Io);
    assert_eq!(region(0xFF7F), Region::Io);
    assert_eq!(region(0xFF80), Region::Hram);
    assert_eq!(region(0xFFFE), Region::Hram);
    assert_eq!(region(0xFFFF), Region::InterruptEnable);
}

#[test]
fn echo_ram_mirrors_work_ram() {
    assert_eq!(echo_wram_addr(0xE000), 0xC000);
    assert_eq!(echo_wram_addr(0xE123), 0xC123);
    assert_eq!(echo_wram_addr(0xFDFF), 0xDDFF);
    // The formula wraps inside 8 KiB above the echo window.
    assert_eq!(echo_wram_addr(0xFE00), 0xDE00);
    assert_eq!(echo_wram_addr(0xFFFF), 0xDFFF);
}

#[test]
fn oam_dma_conflicts_follow_source_bus() {
    // No transfer: never a conflict.
    assert!(!dma_conflicts_with(false, 0xC0, 0xC000));
    // WRAM source page blocks WRAM and echo, not ROM or VRAM.
    assert!(dma_conflicts_with(true, 0xC1, 0xC000));
    assert!(dma_conflicts_with(true, 0xC1, 0xFDFF));
    assert!(!dma_conflicts_with(true, 0xC1, 0x0100));
    assert!(!dma_conflicts_with(true, 0xC1, 0x8000));
    // ROM source page blocks ROM and external RAM.
    assert!(dma_conflicts_with(true, 0x12, 0x4000));
    assert!(dma_conflicts_with(true, 0x12, 0xA000));
    assert!(!dma_conflicts_with(true, 0x12, 0xC000));
    // External RAM page shares the cartridge bus.
    assert!(dma_conflicts_with(true, 0xA0, 0x0000));
    // VRAM source blocks VRAM only.
    assert!(dma_conflicts_with(true, 0x80, 0x9FFF));
    assert!(!dma_conflicts_with(true, 0x80, 0x0000));
    // HRAM, IE and OAM never conflict.
    assert!(!dma_conflicts_with(true, 0xC0, 0xFF80));
    assert!(!dma_conflicts_with(true, 0xC0, 0xFFFF));
    assert!(!dma_conflicts_with(true, 0xC0, 0xFE00));
    assert!(!dma_conflicts_with(true, 0xC0, 0xFF00));
}

#[test]
fn io_store_masks_if_and_completes_serial() {
    assert_eq!(io_stored_value(0xFF0F, 0xFF), 0x1F);
    assert_eq!(io_stored_value(0xFF02, 0x81), 0x01);
    assert_eq!(io_stored_value(0xFF02, 0x01), 0x01);
    assert_eq!(io_stored_value(0xFF01, 0xAB), 0xAB);
}

#[test]
fn tick_is_sliced_while_hdma_armed() {
    assert_eq!(tick_slices(true, 0), Vec::<u32>::new());
    assert_eq!(tick_slices(true, 4), vec![4]);
    assert_eq!(tick_slices(true, 10), vec![4, 4, 2]);
    assert_eq!(tick_slices(true, 12), vec![4, 4, 4]);
    assert_eq!(tick_slices(false, 10), vec![10]);
    let total: u32 = tick_slices(true, 4101).iter().sum();
    assert_eq!(total, 4101);
}

#[test]
fn oam_dma_suppression_skips_first_cycles() {
    assert_eq!(oam_dma_budget(4, 4), (0, 0));
    assert_eq!(oam_dma_budget(4, 12), (0, 8));
    assert_eq!(oam_dma_budget(4, 2), (2, 0));
    assert_eq!(oam_dma_budget(0, 8), (0, 8));
}

#[test]
fn cgb_ports_read_by_model() {
    // Native CGB maps KEY0, BGPD, OPRI and SVBK.
    assert_eq!(io_read(KEY0, true, true), IoRead::Key0);
    assert_eq!(io_read(BGPD, true, true), IoRead::Bgpd);
    assert_eq!(io_read(OPRI, true, true), IoRead::Opri);
    assert_eq!(io_read(SVBK, true, true), IoRead::Svbk);
    assert_eq!(io_read(HDMA1, true, true), IoRead::Constant(0xFF));
    assert_eq!(io_read(HDMA5, true, true), IoRead::Hdma5);
    // CGB silicon in DMG-compatibility mode: BGPI stays, BGPD and KEY0 are open bus.
    assert_eq!(io_read(BGPI, true, false), IoRead::Bgpi);
    assert_eq!(io_read(BGPD, true, false), IoRead::Constant(0xFF));
    assert_eq!(io_read(KEY0, true, false), IoRead::Constant(0xFF));
    assert_eq!(io_read(FF74, true, false), IoRead::Ff74Locked);
    assert_eq!(io_read(0xFF76, true, false), IoRead::Constant(0x00));
    assert_eq!(io_read(VBK, true, false), IoRead::Vbk);
    assert_eq!(io_read(SVBK, true, false), IoRead::Constant(0xFF));
    // DMG: everything CGB-only reads $FF.
    assert_eq!(io_read(VBK, false, false), IoRead::Constant(0xFF));
    assert_eq!(io_read(BGPI, false, false), IoRead::Constant(0xFF));
    assert_eq!(io_read(BOOT_DISABLE, false, false), IoRead::Constant(0xFF));
    assert_eq!(io_read(0xFF40, false, false), IoRead::Backing);
}

#[test]
fn cgb_ports_write_by_model() {
    assert_eq!(io_write(BOOT_DISABLE, false, false), IoWrite::BootDisable);
    assert_eq!(io_write(HDMA5, true, true), IoWrite::HdmaStart);
    assert_eq!(io_write(HDMA5, true, false), IoWrite::Ignored);
    assert_eq!(io_write(KEY0, true, true), IoWrite::Key0);
    assert_eq!(io_write(KEY0, true, false), IoWrite::Ignored);
    assert_eq!(io_write(0xFF76, true, true), IoWrite::Ignored);
    assert_eq!(io_write(VBK, true, false), IoWrite::Vbk);
    assert_eq!(io_write(SVBK, false, false), IoWrite::Ignored);
    assert_eq!(io_write(0xFF01, false, false), IoWrite::Backing);
}

#[test]
fn cgb_mmio_visibility_matrix_routing() {
    // (port, DMG-compatibility source, native CGB source); DMG reads $FF everywhere.
    let rows: [(u16, IoRead, IoRead); 14] = [
        (KEY0, IoRead::Constant(0xFF), IoRead::Key0),
        (KEY1, IoRead::Constant(0xFF), IoRead::Key1),
        (VBK, IoRead::Vbk, IoRead::Vbk),
        (HDMA5, IoRead::Constant(0xFF), IoRead::Hdma5),
        (BGPI, IoRead::Bgpi, IoRead::Bgpi),
        (BGPD, IoRead::Constant(0xFF), IoRead::Bgpd),
        (OBPI, IoRead::Obpi, IoRead::Obpi),
        (OBPD, IoRead::Constant(0xFF), IoRead::Obpd),
        (OPRI, IoRead::Constant(0xFF), IoRead::Opri),
        (SVBK, IoRead::Constant(0xFF), IoRead::Svbk),
        (FF72, IoRead::Scratch, IoRead::Scratch),
        (FF74, IoRead::Ff74Locked, IoRead::Scratch),
        (0xFF76, IoRead::Constant(0x00), IoRead::Pcm12),
        (0xFF77, IoRead::Constant(0x00), IoRead::Pcm34),
    ];
    for (addr, compat, native) in rows {
        assert_eq!(io_read(addr, false, false), IoRead::Constant(0xFF), "DMG ${addr:04X}");
        assert_eq!(io_read(addr, true, false), compat, "compat ${addr:04X}");
        assert_eq!(io_read(addr, true, true), native, "native ${addr:04X}");
    }
    assert_eq!(io_write(BGPD, true, false), IoWrite::Ignored);
    assert_eq!(io_write(BGPD, true, true), IoWrite::Bgpd);
    for addr in [0xFF71u16, 0xFF78, 0xFF7F] {
        assert_eq!(io_read(addr, true, true), IoRead::Constant(0xFF));
        assert_eq!(io_write(addr, true, true), IoWrite::Ignored);
    }
}

fn wram_read8(w: &Wram, addr: u16) -> u8 {
    match region(addr) {
        Region::Wram => w.read(addr, false),
        Region::EchoWram => w.read_echo(addr, false),
        other => panic!("{other:?} not modelled"),
    }
}

fn wram_write8(w: &mut Wram, addr: u16, value: u8) {
    match region(addr) {
        Region::Wram => w.write(addr, value, false),
        Region::EchoWram => w.write_echo(addr, value, false),
        other => panic!("{other:?} not modelled"),
    }
}

#[test]
fn wram_echo_mirrors_c000_for_cpu() {
    let mut w = Wram::new();
    // $E000–$FDFF mirrors $C000–$DDFF (not $DFFF — that has no echo alias).
    wram_write8(&mut w, 0xDDFF, 0x77);
    assert_eq!(wram_read8(&w, 0xFDFF), 0x77);
    wram_write8(&mut w, 0xFDFE, 0x42);
    assert_eq!(wram_read8(&w, 0xDDFE), 0x42);
}
