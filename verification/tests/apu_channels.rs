use graycart::apu::frame_sequencer::FrameSequencer;
use graycart::apu::noise::NoiseChannel;
use graycart::apu::pcm::{PCM12, PCM34, pack_pcm};
use graycart::apu::square::Channel1;
use graycart::apu::wave::{WAVE_RAM_START, WaveChannel};

#[test]
fn eight_steps_per_frame_at_512hz() {
    let mut seq = FrameSequencer::new();
    let mut lengths = 0;
    let mut envelopes = 0;
    // 8 steps × 8192 = 65536 T = 1/64 s → one full sequencer frame
    for ev in seq.tick(8192 * 8) {
        if ev.length {
            lengths += 1;
        }
        if ev.envelope {
            envelopes += 1;
        }
    }
    assert_eq!(lengths, 4);
    assert_eq!(envelopes, 1);
}

#[test]
fn trigger_clears_lfsr_and_xnor_escapes_zero() {
    let mut ch = NoiseChannel::new();
    ch.write_nr42(0xF0);
    ch.write_nr43(0x00); // 15-bit, fastest-ish
    ch.write_nr44(0x80, false);
    assert_eq!(ch.lfsr(), 0);
    ch.clock_lfsr();
    // XNOR(0,0)=1 → after shift, bit 14 set.
    assert_ne!(ch.lfsr(), 0);
    assert_eq!(ch.lfsr() & (1 << 14), 1 << 14);
}


#[test]
fn width7_mirrors_into_bit6_after_shift() {
    let mut ch = NoiseChannel::new();
    ch.write_nr42(0xF0);
    ch.write_nr43(0x08); // 7-bit width
    ch.write_nr44(0x80, false);
    ch.clock_lfsr();
    // bit written also lands at bit 7 pre-shift → bit 6 post-shift.
    assert_eq!(ch.lfsr() & (1 << 6), 1 << 6);
}


#[test]
fn period_divisor_zero_is_half() {
    let mut ch = NoiseChannel::new();
    ch.write_nr43(0x00); // div 0, shift 0
    assert_eq!(ch.period_t(), Some(8));
    ch.write_nr43(0x01); // div 1, shift 0
    assert_eq!(ch.period_t(), Some(16));
    ch.write_nr43(0x11); // div 1, shift 1
    assert_eq!(ch.period_t(), Some(32));
    ch.write_nr43(0xE0); // shift 14 → frozen
    assert_eq!(ch.period_t(), None);
}


#[test]
fn envelope_decreases_volume() {
    let mut ch = NoiseChannel::new();
    ch.write_nr42(0xF1); // vol 15, decrease, period 1
    ch.write_nr44(0x80, false);
    assert_eq!(ch.volume(), 15);
    ch.clock_envelope();
    assert_eq!(ch.volume(), 14);
}

#[test]
fn sweep_increases_frequency_over_time() {
    let mut ch1 = Channel1::new();
    ch1.pulse.write_nrx2(0xF0);
    ch1.pulse.write_nrx1(0x80);
    ch1.write_nr10(0x13); // pace 1, shift 3, add
    ch1.pulse.write_nrx3(0x00);
    // NR14 write supplies period high bits — 0x100 → high=1.
    ch1.write_nr14(0x80 | 0x01, false);
    assert!(ch1.pulse.enabled());
    let start = ch1.pulse.frequency();
    assert_eq!(start, 0x100);
    ch1.clock_sweep();
    let after = ch1.pulse.frequency();
    assert!(
        after > start,
        "add sweep should raise period value: {start} → {after}"
    );
    assert_eq!(after, start + (start >> 3));
}


#[test]
fn sweep_negate_clear_after_subtract_disables() {
    let mut ch1 = Channel1::new();
    ch1.pulse.write_nrx2(0xF0);
    ch1.write_nr10(0x0B); // pace 0, negate, shift 3
    ch1.pulse.write_nrx3(0x00);
    ch1.write_nr14(0x80 | 0x02, false); // freq 0x200
    assert!(
        ch1.pulse.enabled(),
        "subtract calc 0x200-0x40 should not overflow"
    );
    ch1.write_nr10(0x03); // negate cleared
    assert!(!ch1.pulse.enabled(), "negate-used quirk must disable CH1");
}


#[test]
fn sweep_second_overflow_check_disables() {
    // start=0x500, shift=1 → 0x780 OK; second 0x780+0x3C0 overflows.
    let mut ch1 = Channel1::new();
    ch1.pulse.write_nrx2(0xF0);
    ch1.write_nr10(0x11); // pace 1, shift 1, add
    ch1.pulse.write_nrx3(0x00);
    ch1.write_nr14(0x80 | 0x05, false); // freq 0x500
    assert!(ch1.pulse.enabled());
    assert_eq!(ch1.pulse.frequency(), 0x500);
    ch1.clock_sweep();
    assert!(
        !ch1.pulse.enabled(),
        "second overflow check after write-back must disable"
    );
}


#[test]
fn sweep_overflow_on_trigger_disables() {
    let mut ch1 = Channel1::new();
    ch1.pulse.write_nrx2(0xF0);
    ch1.pulse.write_nrx1(0x80);
    ch1.write_nr10(0x01); // pace 0, shift 1, add
    ch1.pulse.write_nrx3(0x00);
    // freq=$700, shift=1, add → 0xA80 > 0x7FF
    ch1.write_nr14(0x80 | 0x07, false);
    assert!(
        !ch1.pulse.enabled(),
        "immediate sweep overflow must disable CH1"
    );
}

#[test]
fn wave_ram_high_nibble_first() {
    let mut ch = WaveChannel::new();
    ch.write_wave(WAVE_RAM_START, 0xAB); // high=A, low=B
    assert_eq!(ch.nibble_at(0), 0x0A);
    assert_eq!(ch.nibble_at(1), 0x0B);
    ch.write_wave(WAVE_RAM_START + 1, 0xC5);
    assert_eq!(ch.nibble_at(2), 0x0C);
    assert_eq!(ch.nibble_at(3), 0x05);
}


#[test]
fn output_level_shifts() {
    let mut ch = WaveChannel::new();
    ch.sample_buffer = 0x0C; // 12
    ch.write_nr32(0x00); // mute
    assert_eq!(ch.apply_level(0x0C), 0);
    ch.write_nr32(0x20); // 100%
    assert_eq!(ch.apply_level(0x0C), 0x0C);
    ch.write_nr32(0x40); // 50%
    assert_eq!(ch.apply_level(0x0C), 0x06);
    ch.write_nr32(0x60); // 25%
    assert_eq!(ch.apply_level(0x0C), 0x03);
}


#[test]
fn power_off_preserves_wave_ram() {
    let mut ch = WaveChannel::new();
    ch.write_wave(WAVE_RAM_START, 0x42);
    ch.write_nr30(0x80);
    ch.power_off();
    assert_eq!(ch.read_wave(WAVE_RAM_START), 0x42);
    assert!(!ch.dac_enabled());
}


#[test]
fn apply_snapshot_running_channel_stays_enabled() {
    let mut ch = WaveChannel::new();
    ch.write_nr30(0x80);
    ch.write_nr31(0x00); // length counter = 256 → stored as 255
    ch.write_nr34(0x80, false); // trigger, length clock off
    assert!(ch.enabled());

    let snap = ch.snapshot();
    let mut restored = WaveChannel::new();
    restored.apply_snapshot(&snap, &ch.wave_ram_bytes());
    assert!(restored.enabled());
    assert!(restored.dac_enabled());
}

#[test]
fn pcm_mmio_addresses() {
    assert_eq!(PCM12, 0xFF76);
    assert_eq!(PCM34, 0xFF77);
}


#[test]
fn pack_pcm_places_lo_and_hi_nibbles() {
    assert_eq!(pack_pcm(0x0A, 0x0B), 0xBA);
    assert_eq!(pack_pcm(0x1F, 0x20), 0x0F);
}
