// SID voice synthesis per output sample: envelope generator, oscillator and waveform output
use vstd::prelude::*;
use crate::c64::sid::{SIDVoice, VoiceState, WaveForm};

verus! {

/// How far the decay and release steps are shifted down at an envelope level whose top
/// byte is `level_hi` (the envelope falls off exponentially).
pub open spec fn spec_egdr_shift(level_hi: u32) -> u32 {
    if level_hi < 8 {
        5
    } else if level_hi < 16 {
        4
    } else if level_hi < 28 {
        3
    } else if level_hi < 56 {
        2
    } else if level_hi < 128 {
        1
    } else {
        0
    }
}

/// The decay and release shift at an envelope level (see `spec_egdr_shift`).
pub fn egdr_shift(level_hi: u32) -> (r: u32)
    ensures
        r == spec_egdr_shift(level_hi),
{
    if level_hi < 8 {
        5
    } else if level_hi < 16 {
        4
    } else if level_hi < 28 {
        3
    } else if level_hi < 56 {
        2
    } else if level_hi < 128 {
        1
    } else {
        0
    }
}

/// A voice after its envelope generator has made one step: the attack adds its rate up
/// to the top level $FFFFFF and then turns to decay; the decay falls (shifted by the
/// level) to the sustain level and stays there; the release falls to 0 and turns idle;
/// an idle voice stays at 0. Levels past $FFFFFF mark a wrap-around below 0.
pub open spec fn envelope_step(v: SIDVoice) -> SIDVoice {
    match v.state {
        VoiceState::Attack => {
            let l = vstd::wrapping::u32_specs::wrapping_add(v.level, v.attack_add);
            if l > 0xFFFFFF {
                SIDVoice { level: 0xFFFFFF, state: VoiceState::Decay, ..v }
            } else {
                SIDVoice { level: l, ..v }
            }
        },
        VoiceState::Decay => {
            if v.level <= v.sustain_level || v.level > 0xFFFFFF {
                SIDVoice { level: v.sustain_level, ..v }
            } else {
                let l = vstd::wrapping::u32_specs::wrapping_sub(
                    v.level,
                    v.decay_sub >> spec_egdr_shift(v.level >> 16u32),
                );
                if l <= v.sustain_level || l > 0xFFFFFF {
                    SIDVoice { level: v.sustain_level, ..v }
                } else {
                    SIDVoice { level: l, ..v }
                }
            }
        },
        VoiceState::Release => {
            let l = vstd::wrapping::u32_specs::wrapping_sub(
                v.level,
                v.release_sub >> spec_egdr_shift(v.level >> 16u32),
            );
            if l > 0xFFFFFF {
                SIDVoice { level: 0, state: VoiceState::Idle, ..v }
            } else {
                SIDVoice { level: l, ..v }
            }
        },
        VoiceState::Idle => SIDVoice { level: 0, ..v },
    }
}

/// Advances a voice's envelope by one output sample (see `envelope_step`).
pub fn step_envelope(v: &mut SIDVoice)
    ensures
        *final(v) == envelope_step(*old(v)),
{
    match v.state {
        VoiceState::Attack => {
            v.level = v.level.wrapping_add(v.attack_add);
            if v.level > 0xFFFFFF {
                v.level = 0xFFFFFF;
                v.state = VoiceState::Decay;
            }
        },
        VoiceState::Decay => {
            if v.level <= v.sustain_level || v.level > 0xFFFFFF {
                v.level = v.sustain_level;
            } else {
                let shift = egdr_shift(v.level >> 16);
                v.level = v.level.wrapping_sub(v.decay_sub >> shift);
                if v.level <= v.sustain_level || v.level > 0xFFFFFF {
                    v.level = v.sustain_level;
                }
            }
        },
        VoiceState::Release => {
            let shift = egdr_shift(v.level >> 16);
            v.level = v.level.wrapping_sub(v.release_sub >> shift);
            if v.level > 0xFFFFFF {
                v.level = 0;
                v.state = VoiceState::Idle;
            }
        },
        VoiceState::Idle => {
            v.level = 0;
        },
    }
}

/// The voices after voice `i`'s oscillator has made one step: its 24-bit counter adds
/// the frequency (unless the test bit holds it); with sync on, a counter that passed
/// $1000000 resets the voice it modulates; the counter is then cut to 24 bits.
pub open spec fn oscillator_step(vs: Seq<SIDVoice>, i: int) -> Seq<SIDVoice> {
    let v = vs[i];
    let c1 = if v.test { v.wf_cnt } else { vstd::wrapping::u32_specs::wrapping_add(v.wf_cnt, v.wf_add) };
    let vs1 = vs.update(i, SIDVoice { wf_cnt: c1, ..v });
    let m = v.modulatee as int;
    let vs2 = if v.sync && c1 > 0x1000000 { vs1.update(m, SIDVoice { wf_cnt: 0, ..vs1[m] }) } else { vs1 };
    vs2.update(i, SIDVoice { wf_cnt: vs2[i].wf_cnt & 0xFFFFFF, ..vs2[i] })
}

/// Advances the oscillator of voice `i` by one output sample (see `oscillator_step`).
#[verifier::rlimit(30)]
pub fn step_oscillator(voices: &mut [SIDVoice; 3], i: usize)
    requires
        i < 3,
        old(voices)@[i as int].modulatee < 3,
    ensures
        final(voices)@ == oscillator_step(old(voices)@, i as int),
        final(voices)@[i as int].wf_cnt <= 0xFFFFFF,
{
    let ghost vs = voices@;
    let v = voices[i];
    let c1 = if v.test { v.wf_cnt } else { v.wf_cnt.wrapping_add(v.wf_add) };
    voices[i] = SIDVoice { wf_cnt: c1, ..v };
    let ghost vs1 = voices@;
    assert(vs1 =~= vs.update(i as int, SIDVoice { wf_cnt: c1, ..vs[i as int] }));
    let m = v.modulatee;
    if v.sync && c1 > 0x1000000 {
        let mv = voices[m];
        voices[m] = SIDVoice { wf_cnt: 0, ..mv };
    }
    let ghost vs2 = voices@;
    assert(vs2 =~= (if v.sync && c1 > 0x1000000 {
        vs1.update(m as int, SIDVoice { wf_cnt: 0, ..vs1[m as int] })
    } else {
        vs1
    }));
    let w = voices[i];
    let c0 = w.wf_cnt;
    let c = c0 & 0xFFFFFF;
    assert(c <= 0xFFFFFF) by (bit_vector)
        requires
            c == c0 & 0xFFFFFF,
    ;
    voices[i] = SIDVoice { wf_cnt: c, ..w };
    assert(voices@ =~= oscillator_step(vs, i as int));
}

/// The triangle wave at a 13-bit phase: a 12-bit ramp up and back down, each step
/// spread over 16 bits.
pub open spec fn spec_triangle(phase: u32) -> u16 {
    let j = if phase < 0x1000 { phase } else { (0x1FFF - phase) as u32 };
    ((j << 4u32) | (j >> 8u32)) as u16
}

/// The triangle wave at a 13-bit phase (see `spec_triangle`).
pub fn triangle(phase: u32) -> (t: u16)
    requires
        phase < 0x2000,
    ensures
        t == spec_triangle(phase),
{
    let j = if phase < 0x1000 { phase } else { 0x1FFF - phase };
    ((j << 4u32) | (j >> 8u32)) as u16
}

/// Whether the pulse wave is high: the counter is past the pulse width, shifted up by 12
/// within 16 bits.
pub open spec fn pulse_high(v: SIDVoice) -> bool {
    v.wf_cnt > ((v.pw_val << 12u16) as u32)
}

/// The 16-bit output of a voice for its waveform, and the voice afterwards, with
/// `modulator_cnt` the counter of the voice that ring-modulates it and `rnd` a random
/// number for the noise generator. The triangle takes its phase from the top 13 counter
/// bits (its top bit flipped by the modulator's under ring modulation), the saw from the
/// top 16 bits, the pulse is all ones or zero; the combined waveforms are modelled as the
/// bitwise AND of their components. The noise takes a new random value (its low byte
/// shifted up) each time the counter passes $100000, which drops the counter's top 4 bits.
pub open spec fn wave_step(v: SIDVoice, modulator_cnt: u32, rnd: u16) -> (u16, SIDVoice) {
    let tri = if v.ring {
        spec_triangle((v.wf_cnt ^ (modulator_cnt & 0x800000)) >> 11u32)
    } else {
        spec_triangle(v.wf_cnt >> 11u32)
    };
    let saw = (v.wf_cnt >> 8u32) as u16;
    let high = pulse_high(v);
    match v.wave {
        WaveForm::Triangle => (tri, v),
        WaveForm::Saw => (saw, v),
        WaveForm::Pulse => (if high { 0xFFFFu16 } else { 0u16 }, v),
        WaveForm::TriSaw => (tri & saw, v),
        WaveForm::TriPulse => (if high { tri } else { 0u16 }, v),
        WaveForm::SawPulse => (if high { saw } else { 0u16 }, v),
        WaveForm::TriSawPulse => (if high { tri & saw } else { 0u16 }, v),
        WaveForm::Noise => {
            if v.wf_cnt > 0x100000 {
                let n = rnd << 8u16;
                (n, SIDVoice { noise: n as u32, wf_cnt: v.wf_cnt & 0xFFFFF, ..v })
            } else {
                (v.noise as u16, v)
            }
        },
        WaveForm::NoWave => (0x8000u16, v),
    }
}

/// The 16-bit waveform output of a voice (see `wave_step`), `rnd` being the random number
/// the noise generator takes when it needs a new value.
pub fn wave_output(v: &mut SIDVoice, modulator_cnt: u32, rnd: u16) -> (o: u16)
    requires
        old(v).wf_cnt <= 0xFFFFFF,
    ensures
        (o, *final(v)) == wave_step(*old(v), modulator_cnt, rnd),
{
    let cnt = v.wf_cnt;
    let ring = v.ring;
    let phase = if ring { (cnt ^ (modulator_cnt & 0x800000)) >> 11u32 } else { cnt >> 11u32 };
    assert(phase < 0x2000) by (bit_vector)
        requires
            cnt <= 0xFFFFFF,
            phase == (if ring { (cnt ^ (modulator_cnt & 0x800000)) >> 11u32 } else { cnt >> 11u32 }),
    ;
    let tri = triangle(phase);
    let saw = (v.wf_cnt >> 8u32) as u16;
    let high = v.wf_cnt > ((v.pw_val << 12u16) as u32);
    match v.wave {
        WaveForm::Triangle => tri,
        WaveForm::Saw => saw,
        WaveForm::Pulse => if high { 0xFFFF } else { 0 },
        WaveForm::TriSaw => tri & saw,
        WaveForm::TriPulse => if high { tri } else { 0 },
        WaveForm::SawPulse => if high { saw } else { 0 },
        WaveForm::TriSawPulse => if high { tri & saw } else { 0 },
        WaveForm::Noise => {
            if v.wf_cnt > 0x100000 {
                let n = rnd << 8u16;
                v.noise = n as u32;
                v.wf_cnt = v.wf_cnt & 0xFFFFF;
                n
            } else {
                v.noise as u16
            }
        },
        WaveForm::NoWave => 0x8000,
    }
}

/// Voice `i` for one output sample: its envelope steps; unless it is muted (then `None`),
/// its oscillator steps and its waveform output is returned. The noise generator's new
/// value comes from the random number generator; whatever it gave, the result is the
/// output for it.
pub fn step_voice(voices: &mut [SIDVoice; 3], i: usize) -> (out: Option<u16>)
    requires
        i < 3,
        old(voices)@[i as int].modulatee < 3,
        old(voices)@[i as int].modulator < 3,
    ensures
        ({
            let e = old(voices)@.update(i as int, envelope_step(old(voices)@[i as int]));
            &&& e[i as int].mute ==> out is None && final(voices)@ == e
            &&& !e[i as int].mute ==> {
                let o = oscillator_step(e, i as int);
                let v = o[i as int];
                let mc = o[v.modulator as int].wf_cnt;
                exists|rnd: u16| #[trigger] wave_step(v, mc, rnd) == (out->0, final(voices)@[i as int])
                    && out is Some
                    && final(voices)@ == o.update(i as int, wave_step(v, mc, rnd).1)
            }
        }),
{
    let mut v = voices[i];
    step_envelope(&mut v);
    voices[i] = v;
    if voices[i].mute {
        return None;
    }
    step_oscillator(voices, i);
    let mut w = voices[i];
    let mc = voices[w.modulator].wf_cnt;
    let rnd = if w.wave == WaveForm::Noise && w.wf_cnt > 0x100000 { random_u16() } else { 0 };
    let o = wave_output(&mut w, mc, rnd);
    voices[i] = w;
    Some(o)
}

/// A random number for the noise generator.
/// Calls `rand::random::<u16>()`; nothing is claimed of the value beyond its type.
#[verifier::external_body]
fn random_u16() -> u16 {
    rand::random::<u16>()
}

} // verus!
