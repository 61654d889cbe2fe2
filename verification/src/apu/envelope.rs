//! Volume envelope and length counter steps shared by the pulse and noise channels.

use vstd::prelude::*;

verus! {

/// Envelope timer and volume after one 64 Hz envelope clock, for envelope
/// register `nrx2` (bits 0–2 period, bit 3 direction).
pub open spec fn spec_envelope_step(nrx2: u8, timer: u8, volume: u8) -> (u8, u8) {
    let period = nrx2 & 0x07;
    let t1: u8 = if timer > 0 { (timer - 1) as u8 } else { 0 };
    if period == 0 {
        (timer, volume)
    } else if t1 != 0 {
        (t1, volume)
    } else {
        let increase = nrx2 & 0x08 != 0;
        let v: u8 = if increase && volume < 15 {
            (volume + 1) as u8
        } else if !increase && volume > 0 {
            (volume - 1) as u8
        } else {
            volume
        };
        (period, v)
    }
}

/// One envelope clock (the caller skips it while the channel is disabled).
pub fn envelope_step(nrx2: u8, timer: u8, volume: u8) -> (r: (u8, u8))
    ensures
        r == spec_envelope_step(nrx2, timer, volume),
{
    let period: u8 = nrx2 & 0x07;
    if period == 0 {
        return (timer, volume);
    }
    let mut t: u8 = timer;
    if t > 0 {
        t = t - 1;
    }
    if t != 0 {
        return (t, volume);
    }
    let increase: bool = nrx2 & 0x08 != 0;
    let mut v: u8 = volume;
    if increase && v < 15 {
        v = v + 1;
    } else if !increase && v > 0 {
        v = v - 1;
    }
    (period, v)
}

/// An envelope clock never takes the volume out of `0..=15`, and never moves
/// it by more than one step.
pub proof fn lemma_envelope_volume_bounded(nrx2: u8, timer: u8, volume: u8)
    requires
        volume <= 15,
    ensures
        spec_envelope_step(nrx2, timer, volume).1 <= 15,
        spec_envelope_step(nrx2, timer, volume).1 - volume <= 1,
        volume - spec_envelope_step(nrx2, timer, volume).1 <= 1,
{
}

/// The envelope register's fields as arithmetic: bits 0–2 are `nrx2 % 8`,
/// bit 3 is `(nrx2 / 8) % 2`.
proof fn lemma_nrx2_fields(nrx2: u8)
    by (bit_vector)
    ensures
        nrx2 & 0x07u8 == nrx2 % 8,
        (nrx2 & 0x08u8 != 0) == ((nrx2 / 8) % 2 == 1),
{
}

/// One envelope clock, case by case. With period `nrx2 % 8` zero the
/// envelope is stopped. Otherwise the timer counts down; when it runs out
/// (a timer of 0 or 1) it reloads with the period and the volume moves one
/// step in the direction of bit 3 (`1` louder, `0` quieter), staying within
/// `0..=15`.
pub proof fn lemma_envelope_clock(nrx2: u8, timer: u8, volume: u8)
    ensures
        ({
            let period: int = (nrx2 % 8) as int;
            let louder: bool = (nrx2 / 8) % 2 == 1;
            let r = spec_envelope_step(nrx2, timer, volume);
            &&& period == 0 ==> r.0 == timer && r.1 == volume
            &&& period != 0 && timer > 1 ==> r.0 == timer - 1 && r.1 == volume
            &&& period != 0 && timer <= 1 ==> r.0 == period
            &&& period != 0 && timer <= 1 && louder && volume < 15 ==> r.1 == volume + 1
            &&& period != 0 && timer <= 1 && !louder && volume > 0 ==> r.1 == volume - 1
            &&& period != 0 && timer <= 1 && louder && volume >= 15 ==> r.1 == volume
            &&& period != 0 && timer <= 1 && !louder && volume == 0 ==> r.1 == 0
        }),
{
    lemma_nrx2_fields(nrx2);
}

} // verus!
