use graycart::apu::envelope::envelope_step;
use graycart::apu::frame_sequencer::FrameSequencer;
use graycart::apu::noise::NoiseChannel;
use graycart::apu::square::SquareChannel;
use graycart::apu::wave::{WAVE_RAM_START, WaveChannel};
use graycart::boot::BootMode;
use graycart::bus::boot::{BootRom, cgb_boot_byte};
use graycart::bus::io::{apply_unused_bits, is_unmapped};
use graycart::bus::ports::{FF73, FF75};
use graycart::bus::scratch::CgbScratch;
use graycart::bus::serial::SerialCapture;
use graycart::bus::wram::Wram;
use graycart::cart::Cartridge;
use graycart::cart::cart_type::CartType;
use graycart::cart::destination::Destination;
use graycart::cart::ram_size::RamSize;
use graycart::cart::rom_size::RomSize;
use graycart::bus::map::raise_interrupt_flags;
use graycart::cart::header::{Header, HeaderError};
use graycart::cart::mbc::mbc5::Mbc5;
use graycart::cart::mbc::rtc::Rtc;
use graycart::cart::mbc::{Mapper, ROM_BANK_SIZE};
use graycart::cart::report::{ascii_graphic, hex_bytes};
use graycart::cpu::interrupts::{Interrupt, apply_delayed_ei, highest_pending_of, pending_bits, poll_decision};
use graycart::cpu::semantics::{execute, read_addresses};
use graycart::cpu::timing::{approx_t_cycles, cond_met, mem_operand_pre_t};
use graycart::cpu::{Cond, Cpu, Instruction, Operand8, Reg16, Reg8, StepError};

fn mbc3_timer_cart() -> Cartridge {
    let mut rom = vec![0xFF; 4 * ROM_BANK_SIZE];
    rom[0x0147] = 0x10; // MBC3+TIMER+RAM+BATTERY
    rom[0x0148] = 0x01;
    rom[0x0149] = 0x02;
    let header = Header::parse(&rom).unwrap();
    Cartridge::from_parts(rom, header).unwrap()
}

#[test]
fn save_then_load_restores_ram_and_clock() {
    let mut cart = mbc3_timer_cart();
    cart.write8(0x0000, 0x0A);
    cart.write8(0x4000, 0x00);
    cart.write8(0xA000, 0x5A);
    cart.write8(0xA123, 0xC3);
    cart.write8(0x4000, 0x08);
    cart.write8(0xA000, 0x17); // seconds
    cart.write8(0x4000, 0x0B);
    cart.write8(0xA000, 0x42); // day low
    let image = cart.save_image_at(1_000);
    assert_eq!(image.len(), 8 * 1024 + 48);

    let mut other = mbc3_timer_cart();
    other.load_save_image_at(&image, 1_000);
    assert_eq!(other.external_ram(), cart.external_ram());
    assert!(!other.is_save_dirty());
    other.write8(0x0000, 0x0A);
    other.write8(0x6000, 0x00);
    other.write8(0x6000, 0x01);
    other.write8(0x4000, 0x08);
    assert_eq!(other.read8(0xA000), 0x17);
    other.write8(0x4000, 0x0B);
    assert_eq!(other.read8(0xA000), 0x42);
}

#[test]
fn load_later_advances_clock_by_elapsed_seconds() {
    let mut cart = mbc3_timer_cart();
    cart.write8(0x0000, 0x0A);
    cart.write8(0x4000, 0x08);
    cart.write8(0xA000, 10);
    let image = cart.save_image_at(5_000);
    let mut other = mbc3_timer_cart();
    other.load_save_image_at(&image, 5_030);
    other.write8(0x0000, 0x0A);
    other.write8(0x6000, 0x00);
    other.write8(0x6000, 0x01);
    other.write8(0x4000, 0x08);
    assert_eq!(other.read8(0xA000), 40);
}

#[test]
fn short_save_image_zero_pads_ram() {
    let mut cart = mbc3_timer_cart();
    cart.load_external_ram(&[1, 2, 3]);
    assert_eq!(&cart.external_ram()[..4], &[1, 2, 3, 0]);
    assert_eq!(cart.external_ram().len(), 8 * 1024);
}

#[test]
fn unknown_cart_type_message_names_the_byte() {
    let mut rom = vec![0u8; 0x150];
    rom[0x0147] = 0xEE;
    let header = Header::parse(&rom).unwrap();
    match Cartridge::from_parts(rom, header) {
        Err(e) => assert_eq!(e, "unsupported mapper: $EE"),
        Ok(_) => panic!("unknown type must be refused"),
    }
}

#[test]
fn unsupported_known_mapper_message_names_it() {
    match Mapper::try_for_cart_type(Some(CartType::Mbc7SensorRumbleRamBattery), 0x22) {
        Err(e) => assert_eq!(e, format!("unsupported mapper: {}", CartType::Mbc7SensorRumbleRamBattery.name())),
        Ok(_) => panic!("MBC7 must be refused"),
    }
}

#[test]
fn header_too_short_is_an_error() {
    let e = Header::parse(&[0u8; 0x10]).unwrap_err();
    assert_eq!(e, HeaderError::TooShort { len: 0x10 });
    assert_eq!(e.message(), "ROM too short for cartridge header (16 bytes, need at least 0x150)");
}

#[test]
fn rom_only_pads_and_reads_flat() {
    let mut rom = vec![0u8; 0x100];
    rom[0x10] = 0x99;
    let cart = Cartridge::rom_only(rom);
    assert_eq!(cart.len(), 0x150);
    assert!(!cart.is_empty());
    assert_eq!(cart.read8(0x0010), 0x99);
    assert_eq!(cart.read8(0x4000), 0xFF); // past the image
    assert_eq!(cart.read8(0xA000), 0xFF); // no RAM
    assert_eq!(cart.physical_rom_offset(0x4001), Some(0x4001));
    assert_eq!(cart.physical_rom_offset(0x8000), None);
    assert!(!cart.needs_save());
    assert!(!cart.header_ok());
}

#[test]
fn ram_write_while_disabled_changes_nothing() {
    let mut cart = mbc3_timer_cart();
    cart.write8(0xA010, 0x77);
    assert!(cart.external_ram().iter().all(|&b| b == 0));
    assert!(!cart.is_ram_dirty());
    cart.write8(0x0000, 0x0A);
    cart.write8(0xA010, 0x77);
    assert_eq!(cart.read8(0xA010), 0x77);
    assert!(cart.is_ram_dirty());
    cart.clear_save_dirty();
    assert!(!cart.is_save_dirty());
    cart.mark_save_dirty();
    assert!(cart.is_ram_dirty() && cart.is_rtc_dirty());
}

#[test]
fn power_on_reset_keeps_clock_and_ram() {
    let mut cart = mbc3_timer_cart();
    cart.write8(0x0000, 0x0A);
    cart.write8(0xA000, 0x31);
    cart.write8(0x2000, 0x03);
    cart.power_on_reset_mapper();
    assert_eq!(cart.switchable_rom_bank(), 1);
    assert_eq!(cart.external_ram()[0], 0x31);
    assert_eq!(cart.read8(0xA000), 0xFF); // RAM disabled again
}

#[test]
fn mbc5_snapshot_round_trip() {
    let mut m = Mbc5::new();
    m.write_reg(0x2000, 0x34);
    m.write_reg(0x3000, 0x01);
    m.write_reg(0x4000, 0x05);
    m.write_reg(0x0000, 0x0A);
    let s = m.snapshot();
    let mut other = Mbc5::new();
    other.apply(&s);
    assert_eq!(other, m);
    assert_eq!(other.switchable_rom_bank(), 0x134);
}

#[test]
fn rtc_save_bytes_layout() {
    let mut rtc = Rtc::new();
    rtc.write_reg(0x08, 5);
    rtc.write_reg(0x0C, 0xFF);
    rtc.set_unix_secs(0x0102_0304_0506_0708);
    let b = rtc.to_save_bytes();
    assert_eq!(&b[0..4], &[5, 0, 0, 0]);
    assert_eq!(&b[16..20], &[0xC1, 0, 0, 0]);
    assert_eq!(&b[40..48], &[8, 7, 6, 5, 4, 3, 2, 1]);
    let mut r2 = Rtc::new();
    r2.load_save_bytes(&b[..47]); // too short: ignored
    assert_eq!(r2.unix_secs(), 0);
}

#[test]
fn rtc_sync_advances_running_clock() {
    let mut rtc = Rtc::new();
    rtc.set_unix_secs(100);
    rtc.sync_to_unix(100 + 3_661);
    rtc.write_latch(0);
    rtc.write_latch(1);
    assert_eq!(rtc.read_latched(0x08), 1);
    assert_eq!(rtc.read_latched(0x09), 1);
    assert_eq!(rtc.read_latched(0x0A), 1);
    assert_eq!(rtc.unix_secs(), 3_761);
    assert_eq!(rtc.read_latched(0x0D), 0xFF);
}

#[test]
fn rtc_snapshot_apply_round_trip() {
    let mut rtc = Rtc::new();
    rtc.write_reg(0x09, 33);
    rtc.write_latch(0);
    rtc.write_latch(1);
    let s = rtc.snapshot();
    let mut other = Rtc::new();
    other.apply(&s);
    assert_eq!(other.read_latched(0x09), 33);
    assert_eq!(other.snapshot(), s);
}

#[test]
fn wram_write_reads_back_and_snapshot_restores() {
    let mut w = Wram::new();
    w.write_svbk(5);
    w.write(0xD456, 0xAB, true);
    assert_eq!(w.read(0xD456, true), 0xAB);
    w.write_svbk(6);
    assert_eq!(w.read(0xD456, true), 0x00);
    w.write_svbk(5);
    let snap = w.snapshot_8k(true);
    w.fill(0x11);
    w.apply_snapshot_8k(&snap, true);
    assert_eq!(w.read(0xD456, true), 0xAB);
    assert_eq!(w.read(0xC000, true), 0x00);
}

#[test]
fn io_unmapped_and_unused_bits() {
    assert!(is_unmapped(0xFF03));
    assert!(is_unmapped(0xFF7F));
    assert!(!is_unmapped(0xFF70));
    assert!(!is_unmapped(0xFF40));
    assert_eq!(apply_unused_bits(0xFF0F, 0x01), 0xE1);
    assert_eq!(apply_unused_bits(0xFF26, 0x80), 0xF0);
    assert_eq!(apply_unused_bits(0xFF40, 0x12), 0x12);
}

#[test]
fn serial_capture_decodes_text() {
    let mut s = SerialCapture::new();
    for b in b"Passed" {
        s.push(*b);
    }
    assert_eq!(s.text(), "Passed");
    assert_eq!(s.as_slice(), b"Passed");
    let bad = SerialCapture::from_vec(vec![b'o', b'k', 0xFF]);
    assert_eq!(bad.text(), "ok\u{FFFD}");
    s.clear();
    assert!(s.as_slice().is_empty());
}

#[test]
fn boot_overlay_maps_until_unmapped() {
    let mut boot = BootRom::new();
    assert_eq!(boot.overlay_byte(0x0000), None);
    let mut dmg = [0u8; 256];
    dmg[0x10] = 0x31;
    boot.enable_dmg(&dmg);
    assert!(boot.is_mapped());
    assert_eq!(boot.overlay_byte(0x0010), Some(0x31));
    assert_eq!(boot.overlay_byte(0x0100), None);
    boot.unmap();
    assert_eq!(boot.overlay_byte(0x0010), None);
    let mut cgb = [0u8; 2048];
    cgb[0x05] = 0xA5;
    cgb[0x100] = 0x5A;
    assert_eq!(cgb_boot_byte(&cgb, 0x0005), Some(0xA5));
    assert_eq!(cgb_boot_byte(&cgb, 0x0150), None);
    assert_eq!(cgb_boot_byte(&cgb, 0x0200), Some(0x5A));
    assert_eq!(cgb_boot_byte(&cgb, 0x0900), None);
    boot.enable_cgb(&cgb);
    assert_eq!(boot.overlay_byte(0x0200), Some(0x5A));
    boot.clear();
    assert!(!boot.is_mapped());
}

#[test]
fn boot_mode_labels() {
    assert_eq!(BootMode::Fast.label(), "skip (post-boot state)");
    assert_eq!(BootMode::BootRom.label(), "boot ROM");
}

#[test]
fn interrupt_priority_and_vectors() {
    assert_eq!(pending_bits(0xFF, 0xE4), 0x04);
    assert_eq!(highest_pending_of(0x14), Some(Interrupt::Timer));
    assert_eq!(highest_pending_of(0x00), None);
    assert_eq!(Interrupt::Joypad.vector(), 0x60);
    assert_eq!(Interrupt::Serial.mask(), 0x08);
    assert_eq!(Interrupt::from_bit(1), Some(Interrupt::LcdStat));
    assert_eq!(Interrupt::from_bit(5), None);
    let mut cpu = Cpu::new();
    cpu.halted = true;
    assert_eq!(poll_decision(&mut cpu, 0), None);
    assert!(cpu.halted);
    assert_eq!(poll_decision(&mut cpu, 0x01), None); // IME off: wake only
    assert!(!cpu.halted);
    cpu.ime = true;
    assert_eq!(poll_decision(&mut cpu, 0x06), Some(Interrupt::LcdStat));
}

#[test]
fn ei_takes_effect_after_next_instruction() {
    let mut cpu = Cpu::new();
    cpu.ime_enable_pending = true;
    apply_delayed_ei(&mut cpu);
    assert!(!cpu.ime && cpu.ime_enable_armed);
    apply_delayed_ei(&mut cpu);
    assert!(cpu.ime && !cpu.ime_enable_armed && !cpu.ime_enable_pending);
}

#[test]
fn push_then_pop_restores_register_pair() {
    let mut cpu = Cpu::new();
    cpu.set_bc(0xBEEF);
    cpu.write_r16(Reg16::Sp, 0xD000);
    let push = Instruction::Push(Reg16::Bc);
    assert!(read_addresses(push, &cpu).is_empty());
    let writes = execute(push, &mut cpu, &[]).unwrap();
    assert_eq!(writes, vec![(0xCFFF, 0xBE), (0xCFFE, 0xEF)]);
    assert_eq!(cpu.sp, 0xCFFE);
    cpu.set_bc(0);
    let pop = Instruction::Pop(Reg16::Bc);
    assert_eq!(read_addresses(pop, &cpu), vec![0xCFFE, 0xCFFF]);
    let writes = execute(pop, &mut cpu, &[0xEF, 0xBE]).unwrap();
    assert!(writes.is_empty());
    assert_eq!(cpu.bc(), 0xBEEF);
    assert_eq!(cpu.sp, 0xD000);
}

#[test]
fn call_then_ret_resumes_after_call() {
    let mut cpu = Cpu::new();
    cpu.pc = 0x0153;
    cpu.write_r16(Reg16::Sp, 0xFFFE);
    let w = execute(Instruction::Call { cond: None, target: 0x2000 }, &mut cpu, &[]).unwrap();
    assert_eq!(cpu.pc, 0x2000);
    assert_eq!(w, vec![(0xFFFD, 0x01), (0xFFFC, 0x53)]);
    let ret = Instruction::Ret { cond: None };
    let addrs = read_addresses(ret, &cpu);
    assert_eq!(addrs, vec![0xFFFC, 0xFFFD]);
    execute(ret, &mut cpu, &[0x53, 0x01]).unwrap();
    assert_eq!(cpu.pc, 0x0153);
    assert_eq!(cpu.sp, 0xFFFE);
}

#[test]
fn conditional_ret_not_taken_reads_nothing() {
    let mut cpu = Cpu::new();
    cpu.set_flag_z(false);
    let ret = Instruction::Ret { cond: Some(Cond::Z) };
    assert!(read_addresses(ret, &cpu).is_empty());
    assert!(!cond_met(&cpu, Some(Cond::Z)));
    assert!(cond_met(&cpu, Some(Cond::Nz)));
}

#[test]
fn alu_and_memory_operands_execute() {
    let mut cpu = Cpu::new();
    cpu.a = 0x3A;
    execute(Instruction::Add(Operand8::Imm(0xC6)), &mut cpu, &[]).unwrap();
    assert_eq!(cpu.a, 0x00);
    assert!(cpu.flag_z() && cpu.flag_h() && cpu.flag_c());
    cpu.set_hl(0xC000);
    let inc = Instruction::Inc8(Operand8::MemHl);
    assert_eq!(read_addresses(inc, &cpu), vec![0xC000]);
    let w = execute(inc, &mut cpu, &[0x0F]).unwrap();
    assert_eq!(w, vec![(0xC000, 0x10)]);
    assert!(cpu.flag_h() && cpu.flag_c());
    let w = execute(Instruction::LdiMemHlA, &mut cpu, &[]).unwrap();
    assert_eq!(w, vec![(0xC000, 0x00)]);
    assert_eq!(cpu.hl(), 0xC001);
    let w = execute(Instruction::SetBit { bit: 7, op: Operand8::Reg(Reg8::B) }, &mut cpu, &[]).unwrap();
    assert!(w.is_empty());
    assert_eq!(cpu.b, 0x80);
    let w = execute(Instruction::Swap(Operand8::Reg(Reg8::B)), &mut cpu, &[]).unwrap();
    assert!(w.is_empty());
    assert_eq!(cpu.b, 0x08);
}

#[test]
fn storing_into_an_immediate_is_refused() {
    let mut cpu = Cpu::new();
    let before = cpu;
    let ins = Instruction::Inc8(Operand8::Imm(3));
    let r = execute(ins, &mut cpu, &[]);
    assert_eq!(r, Err(Instruction::Ld8 { dst: Operand8::Imm(3), src: Operand8::Reg(Reg8::A) }));
    assert_eq!(cpu, before);
}

#[test]
fn jr_negative_offset_and_timing() {
    let mut cpu = Cpu::new();
    cpu.pc = 0x0102;
    execute(Instruction::Jr { cond: None, offset: -4 }, &mut cpu, &[]).unwrap();
    assert_eq!(cpu.pc, 0x00FE);
    assert_eq!(approx_t_cycles(Instruction::Ld8 { dst: Operand8::MemHl, src: Operand8::Imm(1) }), 12);
    assert_eq!(mem_operand_pre_t(Instruction::Ld8 { dst: Operand8::MemHl, src: Operand8::Imm(1) }), 8);
    assert_eq!(approx_t_cycles(Instruction::Bit { bit: 1, op: Operand8::MemHl }), 12);
    assert_eq!(approx_t_cycles(Instruction::LdAbsSp(0)), 20);
    assert_eq!(mem_operand_pre_t(Instruction::Nop), 0);
}

#[test]
fn mnemonics_and_step_errors() {
    assert_eq!(Instruction::Jr { cond: Some(Cond::Nz), offset: -2 }.mnemonic(0x0150), "JR NZ, $0150");
    assert_eq!(Instruction::Ld8 { dst: Operand8::MemHl, src: Operand8::Imm(0x3C) }.mnemonic(0), "LD (HL), $3C");
    assert_eq!(Instruction::SetBit { bit: 3, op: Operand8::Reg(Reg8::E) }.mnemonic(0), "SET 3, E");
    assert_eq!(Instruction::LdHlSpE(-128).mnemonic(0), "LD HL, SP-128");
    assert_eq!(Instruction::LdhAAbs(0x44).mnemonic(0), "LDH A, ($44)");
    let e = StepError::Decode { pc: 0x1234, bytes: [0xD3, 0, 1, 2, 3, 4, 5, 0xFF] };
    assert_eq!(e.message(), "failed to decode opcode $D3 at $1234 (D3 00 01 02 03 04 05 FF)");
    let u = StepError::Unimplemented { pc: 0x0100, instruction: Instruction::Stop };
    assert_eq!(u.message(), "unimplemented STOP at $0100");
}

#[test]
fn header_report_lines() {
    let mut rom = vec![0u8; 0x150];
    rom[0x134..0x138].copy_from_slice(b"TEST");
    rom[0x0147] = 0x03;
    rom[0x0148] = 0x01;
    rom[0x0149] = 0x02;
    rom[0x014B] = 0x01;
    let h = Header::parse(&rom).unwrap();
    let text = h.describe(None, Some("Nintendo"));
    let lines: Vec<&str> = text.lines().collect();
    assert_eq!(lines[0], "--- cartridge header ---");
    assert_eq!(lines[3], "title:            TEST");
    assert!(lines.contains(&"rom size:         $01 (64 KiB / 4 banks / 65536 bytes)"));
    assert!(lines.contains(&"ram size:         $02 (8 KiB / 1 banks / 8192 bytes)"));
    assert!(lines.contains(&"old licensee:     $01 (Nintendo)"));
    assert!(lines.contains(&"publisher:        Nintendo (old licensee)"));
    assert_eq!(hex_bytes(&[0x00, 0xC3, 0x50]), "00 C3 50");
    assert_eq!(ascii_graphic(&[0x41, 0x20, 0x7F, 0x5A]), "A..Z");
}

#[test]
fn channel_invariants_hold_in_examples() {
    let mut sq = SquareChannel::new();
    sq.write_nrx2(0xF8); // volume 15, increasing
    sq.write_nrx4(0x80, false);
    for _ in 0..20 {
        sq.clock_envelope();
    }
    assert_eq!(sq.volume(), 15);
    sq.tick(100_000);
    assert!(sq.duty_step < 8);
    assert_eq!(envelope_step(0x09, 1, 15), (1, 15));
    assert_eq!(envelope_step(0x01, 1, 0), (1, 0));

    let mut n = NoiseChannel::new();
    n.write_nr42(0xF0);
    n.write_nr43(0x00);
    n.write_nr44(0x80, false);
    n.tick(5_000);
    assert!(n.lfsr() <= 0x7FFF);

    let mut w = WaveChannel::new();
    w.write_wave(WAVE_RAM_START, 0x9F);
    w.write_nr30(0x80);
    w.write_nr32(0x20);
    w.write_nr34(0x87, false);
    w.tick(4); // period (2048 - 0x700) * 2 = 512; not yet
    assert_eq!(w.digital_output(), 0);
    w.tick(512);
    assert_eq!(w.digital_output(), 0x09);
    assert!(w.position < 32);
}

#[test]
fn frame_sequencer_counts_and_wraps() {
    let mut fs = FrameSequencer::new();
    assert!(fs.tick(8191).is_empty());
    let evs = fs.tick(1);
    assert_eq!(evs.len(), 1);
    assert!(evs[0].length && !evs[0].sweep && !evs[0].envelope);
    assert_eq!(fs.step_index(), 1);
    assert!(fs.next_frame_will_length());
    fs.set_step_index(15);
    assert_eq!(fs.step_index(), 7);
}

#[test]
fn mbc3_cartridge_mapper_snapshot_restores_banking() {
    let mut cart = mbc3_timer_cart();
    cart.write8(0x0000, 0x0A);
    cart.write8(0x2000, 0x03);
    cart.write8(0x4000, 0x02);
    let state = cart.snapshot_mapper();
    let mut other = mbc3_timer_cart();
    other.apply_mapper(&state);
    assert_eq!(other.snapshot_mapper(), state);
    assert_eq!(other.switchable_rom_bank(), 3);
}

#[test]
fn scratch_registers_read_back() {
    let mut s = CgbScratch::new();
    s.write(FF73, 0xA5);
    assert_eq!(s.read(FF73), Some(0xA5));
    s.write(FF75, 0xFF);
    assert_eq!(s.read(FF75), Some(0xFF));
    s.write(FF75, 0x10);
    assert_eq!(s.read(FF75), Some(0x9F));
    assert_eq!(s.read(0xFF76), None);
}

#[test]
fn header_title_is_trimmed_and_cut_at_nul() {
    let mut rom = vec![0u8; 0x150];
    let raw = b"  ZELDA \t";
    rom[0x134..0x134 + raw.len()].copy_from_slice(raw);
    rom[0x13E] = b'X'; // after the NUL: not part of the title
    let h = Header::parse(&rom).unwrap();
    assert_eq!(h.title, "ZELDA");
}

#[test]
fn header_report_is_seventeen_lines_without_final_break() {
    let mut rom = vec![0u8; 0x150];
    rom[0x134..0x138].copy_from_slice(b"TEST");
    rom[0x0147] = 0x13;
    let h = Header::parse(&rom).unwrap();
    let text = h.describe(None, None);
    let lines: Vec<&str> = text.lines().collect();
    assert_eq!(lines.len(), 17);
    assert!(text.starts_with("--- cartridge header ---\n"));
    assert!(!text.ends_with('\n'));
    assert_eq!(lines[2].ends_with("ok"), h.logo_ok);
    assert_eq!(lines[15].ends_with("ok"), h.header_checksum_ok());
    assert_eq!(lines[16].ends_with("ok"), h.global_checksum_ok());
    assert_eq!(lines[8], "cart type:        $13 (MBC3+RAM+BATTERY)");
}

#[test]
fn cart_type_names_say_what_the_type_is() {
    for byte in 0u8..=255 {
        if let Some(t) = CartType::from_byte(byte) {
            let n = t.name();
            assert_eq!(t.is_mbc1(), n.starts_with("MBC1"));
            assert_eq!(t.is_mbc3(), n.starts_with("MBC3"));
            assert_eq!(t.has_rtc(), n.contains("TIMER"));
            assert_eq!(t.has_battery(), n.ends_with("BATTERY"));
        }
    }
}

#[test]
fn header_codes_round_trip_through_byte() {
    let mut seen = 0;
    for b in 0u8..=255 {
        if let Some(t) = CartType::from_byte(b) {
            assert_eq!(t.byte(), b);
            seen += 1;
        }
        if let Some(r) = RomSize::from_byte(b) {
            assert_eq!(r.byte(), b);
        }
        if let Some(r) = RamSize::from_byte(b) {
            assert_eq!(r.byte(), b);
        }
        if let Some(d) = Destination::from_byte(b) {
            assert_eq!(d.byte(), b);
        }
    }
    assert_eq!(seen, 28);
    assert_eq!(CartType::Mbc3RamBattery.byte(), 0x13);
    assert_eq!(RomSize::Mb1_1.byte(), 0x52);
}

#[test]
fn raised_interrupt_flags_keep_five_bits() {
    assert_eq!(raise_interrupt_flags(0x00, 0x04), 0x04);
    assert_eq!(raise_interrupt_flags(0x01, 0x02), 0x03);
    assert_eq!(raise_interrupt_flags(0x1F, 0x01), 0x1F);
    assert_eq!(raise_interrupt_flags(0x10, 0xE0), 0x10);
}
