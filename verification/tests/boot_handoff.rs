use graycart::boot::{
    boot_cpu, fast_handoff, BootMode, CgbExecutionMode, Handoff, HardwareModel, BGP, LCDC,
    LCDC_AFTER_BOOT, SCY,
};
use graycart::bus::ports::{BGPI, OBPI};
use graycart::cpu::Cpu;

const NATIVE: HardwareModel = HardwareModel::Cgb { mode: CgbExecutionMode::NativeCgb };
const COMPAT: HardwareModel = HardwareModel::Cgb { mode: CgbExecutionMode::DmgCompatibility };

#[test]
fn model_flags() {
    assert!(!HardwareModel::Dmg.cgb_mmio());
    assert!(!HardwareModel::Dmg.native_cgb());
    assert!(NATIVE.cgb_mmio() && NATIVE.native_cgb());
    assert!(COMPAT.cgb_mmio() && !COMPAT.native_cgb());
}

#[test]
fn fast_boot_cpu_matches_after_boot_per_model() {
    let dmg = boot_cpu(BootMode::Fast, HardwareModel::Dmg);
    let expected = Cpu::after_boot();
    assert_eq!(dmg.pc, expected.pc);
    assert_eq!(dmg.af(), expected.af());
    assert_eq!(dmg.a, 0x01);
    assert_eq!(boot_cpu(BootMode::Fast, NATIVE).a, 0x11);
    assert_eq!(boot_cpu(BootMode::Fast, NATIVE).de(), 0xFF56);
    assert_eq!(boot_cpu(BootMode::Fast, COMPAT).a, 0x11);
    assert_eq!(boot_cpu(BootMode::Fast, COMPAT).hl(), 0x007C);
}

#[test]
fn boot_rom_cpu_is_power_on() {
    for model in [HardwareModel::Dmg, NATIVE, COMPAT] {
        let cpu = boot_cpu(BootMode::BootRom, model);
        let fresh = Cpu::new();
        assert_eq!(cpu.pc, fresh.pc);
        assert_eq!(cpu.af(), fresh.af());
        assert_eq!(cpu.sp, 0);
    }
}

#[test]
fn dmg_handoff_sets_lcd_apu_and_if() {
    let plan = fast_handoff(HardwareModel::Dmg, 0x00);
    assert_eq!(
        plan,
        vec![
            Handoff::Write { addr: SCY, value: 0 },
            Handoff::Write { addr: BGP, value: 0xFC },
            Handoff::Write { addr: LCDC, value: LCDC_AFTER_BOOT },
            Handoff::ApuAfterBoot,
            Handoff::Write { addr: 0xFF0F, value: 0xE1 },
        ]
    );
    assert_eq!(LCDC_AFTER_BOOT, 0x91);
}

#[test]
fn cgb_handoffs_lock_key0_and_set_palette_indices() {
    let native = fast_handoff(NATIVE, 0xC0);
    assert_eq!(native.len(), 11);
    assert_eq!(native[5], Handoff::FillBgWhite);
    assert_eq!(native[6], Handoff::LockKey0 { value: 0xC0 });
    assert_eq!(native[7], Handoff::SetOpri { value: 0 });
    assert_eq!(native[9], Handoff::Write { addr: BGPI, value: 0xC8 });
    assert_eq!(native[10], Handoff::Write { addr: OBPI, value: 0xD0 });

    let compat = fast_handoff(COMPAT, 0xC0);
    assert_eq!(compat[5], Handoff::FillCompatGrayRamp);
    assert_eq!(compat[6], Handoff::LockKey0 { value: 0x04 });
    assert_eq!(compat[7], Handoff::SetOpri { value: 1 });
    assert_eq!(compat[8], Handoff::Write { addr: 0xFF00, value: 0x30 });
}
