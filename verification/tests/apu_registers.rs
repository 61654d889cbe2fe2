use graycart::apu::{Apu, NR11, NR12, NR14, NR21, NR22, NR24, NR30, NR32, NR34, NR42, NR44, NR50, NR51, NR52};
use graycart::apu::pcm::{PCM12, PCM34};
use graycart::apu::wave::WAVE_RAM_START;

fn load_triangle_wave(apu: &mut Apu) {
    // Rising then falling 4-bit ramp across 32 nibbles (16 bytes).
    let bytes: [u8; 16] = [
        0x01, 0x23, 0x45, 0x67, 0x89, 0xAB, 0xCD, 0xEF, // 0..15
        0xFE, 0xDC, 0xBA, 0x98, 0x76, 0x54, 0x32, 0x10, // 15..0
    ];
    for (i, b) in bytes.iter().enumerate() {
        apu.write(WAVE_RAM_START + i as u16, *b);
    }
}

#[test]
fn power_off_clears_channel() {
    let mut apu = Apu::new();
    apu.write(NR52, 0x80);
    apu.write(NR12, 0xF0);
    apu.write(NR14, 0x80);
    assert_eq!(apu.read(NR52).unwrap() & 0x01, 0x01);
    apu.write(NR52, 0x00);
    assert_eq!(apu.read(NR52).unwrap() & 0x80, 0);
    assert_eq!(apu.read(NR52).unwrap() & 0x01, 0);
}

#[test]
fn unpowered_writes_to_nr12_are_ignored() {
    let mut apu = Apu::new();
    apu.write(NR12, 0xF0);
    apu.write(NR52, 0x80);
    // After power-on, NR12 should still be 0 from power-off clear path...
    // Actually we never powered on before write — write while off is ignored.
    assert_eq!(apu.read(NR12).unwrap() & 0xF0, 0x00);
}

#[test]
fn wave_ram_round_trip_while_apu_off() {
    let mut apu = Apu::new();
    apu.write(WAVE_RAM_START, 0xAB);
    assert_eq!(apu.read(WAVE_RAM_START).unwrap(), 0xAB);
    assert_eq!(apu.read(NR52).unwrap() & 0x80, 0);
}

#[test]
fn ch3_dac_off_kills_channel() {
    let mut apu = Apu::new();
    load_triangle_wave(&mut apu);
    apu.write(NR52, 0x80);
    apu.write(NR50, 0x77);
    apu.write(NR51, 0x44);
    apu.write(NR30, 0x80);
    apu.write(NR32, 0x20);
    apu.write(NR34, 0x80);
    assert_eq!(apu.read(NR52).unwrap() & 0x04, 0x04);
    apu.write(NR30, 0x00);
    assert_eq!(apu.read(NR52).unwrap() & 0x04, 0);
}

#[test]
fn apu_power_off_preserves_wave_ram() {
    let mut apu = Apu::new();
    apu.write(WAVE_RAM_START, 0x5A);
    apu.write(NR52, 0x80);
    apu.write(NR30, 0x80);
    apu.write(NR52, 0x00);
    assert_eq!(apu.read(WAVE_RAM_START).unwrap(), 0x5A);
}

#[test]
fn apply_after_boot_ch4_dac_off() {
    let mut apu = Apu::new();
    apu.apply_after_boot();
    assert_eq!(apu.read(NR42).unwrap(), 0x00);
    assert_eq!(apu.read(NR52).unwrap() & 0x08, 0);
}

#[test]
fn ch4_dac_off_kills_channel() {
    let mut apu = Apu::new();
    apu.write(NR52, 0x80);
    apu.write(NR42, 0xF0);
    apu.write(NR44, 0x80);
    assert_eq!(apu.read(NR52).unwrap() & 0x08, 0x08);
    apu.write(NR42, 0x07);
    assert_eq!(apu.read(NR52).unwrap() & 0x08, 0);
}

#[test]
fn apu_read_does_not_claim_pcm_ports() {
    let apu = Apu::new();
    assert_eq!(apu.read(PCM12), None);
    assert_eq!(apu.read(PCM34), None);
}

#[test]
fn silent_or_disabled_channels_read_pcm_zero() {
    let apu = Apu::new();
    assert_eq!(apu.pcm12(), 0x00);
    assert_eq!(apu.pcm34(), 0x00);

    let mut powered = Apu::new();
    powered.write(NR52, 0x80);
    assert_eq!(powered.pcm12(), 0x00);
    assert_eq!(powered.pcm34(), 0x00);
}

#[test]
fn triggered_pulse_digital_nibble_is_volume_when_duty_high() {
    let mut apu = Apu::new();
    apu.write(NR52, 0x80);
    // 25% duty: first step is 1 → digital = envelope volume ($F).
    apu.write(NR11, 0x40);
    apu.write(NR12, 0xF0);
    apu.write(NR14, 0x80);
    assert_eq!(apu.pcm12() & 0x0F, 0x0F);

    apu.write(NR21, 0x40);
    apu.write(NR22, 0x80);
    apu.write(NR24, 0x80);
    assert_eq!(apu.pcm12(), 0x8F);

    apu.write(NR52, 0x00);
    assert_eq!(apu.pcm12(), 0x00, "APU power-off forces digital 0");
    assert_eq!(apu.pcm34(), 0x00);
}
