use graycart::apu::{Apu, NR11, NR12, NR14, NR30, NR32, NR34, NR42, NR43, NR44, NR50, NR51, NR52};
use graycart::apu::wave::WAVE_RAM_START;

fn busy_apu() -> Apu {
    let mut apu = Apu::new();
    apu.write(NR52, 0x80);
    apu.write(NR50, 0x35);
    apu.write(NR51, 0x9C);
    apu.write(NR11, 0x80);
    apu.write(NR12, 0xA3);
    apu.write(NR14, 0x86);
    for i in 0..16u16 {
        apu.write(WAVE_RAM_START + i, (i as u8) * 0x11);
    }
    apu.write(NR30, 0x80);
    apu.write(NR32, 0x40);
    apu.write(NR34, 0xC3);
    apu.write(NR42, 0x71);
    apu.write(NR43, 0x5B);
    apu.write(NR44, 0x80);
    apu.step_channels(64);
    apu.step_channels(37);
    apu
}

#[test]
fn snapshot_restores_into_fresh_apu() {
    let apu = busy_apu();
    let state = apu.snapshot();
    let mut restored = Apu::new();
    restored.apply_snapshot(&state);
    assert_eq!(restored.snapshot(), state);
    // Wave RAM, routing and power come back exactly.
    for addr in 0xFF24u16..=0xFF3F {
        assert_eq!(restored.read(addr), apu.read(addr), "register ${addr:04X}");
    }
    assert_eq!(restored.pcm12(), apu.pcm12());
    assert_eq!(restored.pcm34(), apu.pcm34());
}

#[test]
fn snapshot_records_power_routing_and_wave_ram() {
    let state = busy_apu().snapshot();
    assert!(state.powered);
    assert_eq!(state.nr50, 0x35);
    assert_eq!(state.nr51, 0x9C);
    assert_eq!(state.wave_ram[1], 0x11);
    assert_eq!(state.ch2.duty_pos, 0);
    assert!(state.ch4.enabled);
}

#[test]
fn debug_snapshot_reports_channels_and_routing() {
    let apu = busy_apu();
    let d = apu.debug_snapshot();
    assert!(d.powered);
    assert_eq!(d.nr50, 0x35);
    assert_eq!(d.nr51, 0x9C);
    assert_eq!(d.nr52, apu.read(NR52).unwrap());
    assert!(d.ch1.active && d.ch1.dac);
    assert_eq!(d.ch1.duty, Some(2));
    assert_eq!(d.ch1.frequency, 0x600);
    assert_eq!(d.ch1.volume, 0x0A);
    assert_eq!(d.ch3.volume, 8);
    assert_eq!(d.ch3.duty, None);
    assert_eq!(d.ch4.frequency, 0x5B);
}
