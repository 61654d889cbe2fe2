//! Channel enable / DAC tests. The analog DAC level is produced by the audio
//! front end from the channel's digital output, which is what these check:
//! a disabled channel outputs nothing.

use graycart::apu::noise::NoiseChannel;
use graycart::apu::square::SquareChannel;
use graycart::apu::wave::WaveChannel;
use graycart::apu::{Apu, NR12, NR22, NR30, NR52};

#[test]
fn dac_off_disables() {
    let mut ch = NoiseChannel::new();
    ch.write_nr42(0xF0);
    ch.write_nr44(0x80, false);
    assert!(ch.enabled());
    ch.write_nr42(0x07);
    assert!(!ch.enabled());
    assert_eq!(ch.digital_output(), 0);
}

#[test]
fn trigger_enables_when_dac_on() {
    let mut ch = SquareChannel::new();
    ch.write_nrx2(0xF0); // max volume, dac on
    ch.write_nrx1(0x80); // duty 2, length
    ch.write_nrx3(0x00);
    ch.write_nrx4(0x87, false); // trigger + high freq bits
    assert!(ch.enabled());
    assert!(ch.dac_enabled());
    assert!(ch.digital_output() <= 15);
}

#[test]
fn square_dac_off_disables_channel() {
    let mut ch = SquareChannel::new();
    ch.write_nrx2(0xF0);
    ch.write_nrx4(0x80, false);
    assert!(ch.enabled());
    ch.write_nrx2(0x07); // dac off
    assert!(!ch.enabled());
    assert_eq!(ch.digital_output(), 0);
}

#[test]
fn wave_dac_off_disables_channel() {
    let mut ch = WaveChannel::new();
    ch.write_nr30(0x80);
    ch.write_nr32(0x20);
    ch.write_nr34(0x80, false);
    assert!(ch.enabled());
    ch.write_nr30(0x00);
    assert!(!ch.enabled());
    assert_eq!(ch.digital_output(), 0);
}

#[test]
fn apply_snapshot_length_expired_keeps_disabled() {
    let mut ch = WaveChannel::new();
    ch.write_nr30(0x80);
    ch.write_nr31(0xFF); // length counter = 1
    ch.write_nr34(0xC0 | 0x80, false); // length enable + trigger
    ch.clock_length();
    assert!(ch.dac_enabled());
    assert!(!ch.enabled());

    let snap = ch.snapshot();
    let mut restored = WaveChannel::new();
    restored.apply_snapshot(&snap, &ch.wave_ram_bytes());
    assert!(restored.dac_enabled());
    assert!(!restored.enabled());
    assert_eq!(restored.digital_output(), 0);
}

#[test]
fn apply_after_boot_powers_and_routes() {
    let mut apu = Apu::new();
    assert!(!apu.powered);
    apu.apply_after_boot();
    assert!(apu.powered, "NR52 power bit after boot");
    assert_eq!(apu.mixer.read_nr50(), 0x77);
    assert_eq!(apu.mixer.read_nr51(), 0xF3);
    let nr51 = apu.mixer.read_nr51();
    assert!(nr51 & 0x10 != 0 && nr51 & 0x01 != 0, "boot NR51 routes CH1 both sides");
    assert_eq!(apu.read(NR52).unwrap() & 0x80, 0x80);
    // CH2 DAC off after boot.
    assert_eq!(apu.read(NR22).unwrap(), 0x00);
    assert_eq!(apu.read(NR12).unwrap(), 0xF3, "Pan Docs post-boot NR12");
    assert_eq!(apu.read(NR52).unwrap() & 0x02, 0);
    // CH3 DAC off after boot.
    assert_eq!(apu.read(NR30).unwrap() & 0x80, 0);
    assert_eq!(apu.read(NR52).unwrap() & 0x04, 0);
}
