use rust64::c64::sid::{SIDAudioDevice, SIDVoice, VoiceState, WaveForm};
use rust64::c64::sid_wave::{egdr_shift, step_envelope, step_oscillator, step_voice, triangle, wave_output};

fn voice() -> SIDVoice {
    SIDVoice::new()
}

#[test]
fn attack_climbs_then_turns_to_decay() {
    let mut v = voice();
    v.state = VoiceState::Attack;
    v.attack_add = 0x100000;
    v.level = 0x100;
    step_envelope(&mut v);
    assert_eq!(v.level, 0x100100);
    assert!(v.state == VoiceState::Attack);
    v.level = 0xFF0000;
    step_envelope(&mut v);
    assert_eq!(v.level, 0xFFFFFF);
    assert!(v.state == VoiceState::Decay);
}

#[test]
fn decay_steps_shrink_with_the_level() {
    let mut v = voice();
    v.state = VoiceState::Decay;
    v.sustain_level = 0x100000;
    v.decay_sub = 0x1000;
    v.level = 0x900000;
    step_envelope(&mut v);
    assert_eq!(v.level, 0x900000 - 0x1000);
    v.level = 0x300000;
    step_envelope(&mut v);
    assert_eq!(v.level, 0x300000 - (0x1000 >> 2));
}

#[test]
fn decay_stops_at_the_sustain_level() {
    let mut v = voice();
    v.state = VoiceState::Decay;
    v.sustain_level = 0x800000;
    v.decay_sub = 0x100000;
    v.level = 0x850000;
    step_envelope(&mut v);
    assert_eq!(v.level, 0x800000);
    assert!(v.state == VoiceState::Decay);
}

#[test]
fn release_ends_idle_at_zero() {
    let mut v = voice();
    v.state = VoiceState::Release;
    v.release_sub = 0x1000;
    v.level = 0x10;
    step_envelope(&mut v);
    assert_eq!(v.level, 0);
    assert!(v.state == VoiceState::Idle);
}

#[test]
fn idle_voice_is_silent() {
    let mut v = voice();
    v.level = 0x1234;
    step_envelope(&mut v);
    assert_eq!(v.level, 0);
}

#[test]
fn egdr_shift_thresholds() {
    assert_eq!(egdr_shift(0), 5);
    assert_eq!(egdr_shift(8), 4);
    assert_eq!(egdr_shift(16), 3);
    assert_eq!(egdr_shift(28), 2);
    assert_eq!(egdr_shift(56), 1);
    assert_eq!(egdr_shift(128), 0);
    assert_eq!(egdr_shift(255), 0);
}

#[test]
fn oscillator_adds_the_frequency_within_24_bits() {
    let mut vs = [voice(), voice(), voice()];
    vs[0].modulatee = 1;
    vs[0].wf_cnt = 0xFFFF00;
    vs[0].wf_add = 0x200;
    vs[1].wf_cnt = 0x1234;
    step_oscillator(&mut vs, 0);
    assert_eq!(vs[0].wf_cnt, 0x100);
    assert_eq!(vs[1].wf_cnt, 0x1234);
}

#[test]
fn test_bit_holds_the_oscillator() {
    let mut vs = [voice(), voice(), voice()];
    vs[0].test = true;
    vs[0].wf_cnt = 0x500;
    vs[0].wf_add = 0x200;
    step_oscillator(&mut vs, 0);
    assert_eq!(vs[0].wf_cnt, 0x500);
}

#[test]
fn sync_resets_the_modulated_voice() {
    let mut vs = [voice(), voice(), voice()];
    vs[0].modulatee = 1;
    vs[0].sync = true;
    vs[0].wf_cnt = 0xFFFFFF;
    vs[0].wf_add = 0x10;
    vs[1].wf_cnt = 0x4321;
    step_oscillator(&mut vs, 0);
    assert_eq!(vs[1].wf_cnt, 0);
    assert_eq!(vs[0].wf_cnt, 0x0F);
}

#[test]
fn triangle_rises_and_falls() {
    assert_eq!(triangle(0), 0);
    assert_eq!(triangle(0x0FFF), 0xFFFF);
    assert_eq!(triangle(0x1000), 0xFFFF);
    assert_eq!(triangle(0x1FFF), 0);
    assert_eq!(triangle(0x0123), 0x1231);
}

#[test]
fn waveform_outputs() {
    let mut v = voice();
    v.wf_cnt = 0x123456;
    v.wave = WaveForm::Saw;
    assert_eq!(wave_output(&mut v, 0, 0), 0x1234);
    v.wave = WaveForm::Triangle;
    assert_eq!(wave_output(&mut v, 0, 0), triangle(0x123456 >> 11));
    v.wave = WaveForm::NoWave;
    assert_eq!(wave_output(&mut v, 0, 0), 0x8000);
    v.wave = WaveForm::Pulse;
    v.pw_val = 0x0001;
    assert_eq!(wave_output(&mut v, 0, 0), 0xFFFF);
    v.pw_val = 0x0F00;
    assert_eq!(wave_output(&mut v, 0, 0), 0xFFFF);
    v.wf_cnt = 0x0FFF;
    v.pw_val = 0x0001;
    assert_eq!(wave_output(&mut v, 0, 0), 0);
    v.wave = WaveForm::TriSaw;
    v.wf_cnt = 0x123456;
    assert_eq!(wave_output(&mut v, 0, 0), triangle(0x123456 >> 11) & 0x1234);
}

#[test]
fn ring_modulation_flips_the_triangle() {
    let mut v = voice();
    v.wave = WaveForm::Triangle;
    v.ring = true;
    v.wf_cnt = 0x100000;
    assert_eq!(wave_output(&mut v, 0x800000, 0), triangle((0x100000 ^ 0x800000) >> 11));
    assert_eq!(wave_output(&mut v, 0x7FFFFF, 0), triangle(0x100000 >> 11));
}

#[test]
fn noise_takes_a_new_value_past_the_threshold() {
    let mut v = voice();
    v.wave = WaveForm::Noise;
    v.wf_cnt = 0x100001;
    assert_eq!(wave_output(&mut v, 0, 0x12AB), 0xAB00);
    assert_eq!(v.noise, 0xAB00);
    assert_eq!(v.wf_cnt, 0x000001);
    assert_eq!(wave_output(&mut v, 0, 0x5555), 0xAB00);
}

#[test]
fn muted_voice_only_steps_its_envelope() {
    let d = SIDAudioDevice::new();
    let mut vs = d.voices;
    vs[0].mute = true;
    vs[0].wf_cnt = 0x10;
    vs[0].wf_add = 0x10;
    vs[0].level = 5;
    assert_eq!(step_voice(&mut vs, 0), None);
    assert_eq!(vs[0].level, 0);
    assert_eq!(vs[0].wf_cnt, 0x10);
}

#[test]
fn voice_step_gives_the_saw_output() {
    let d = SIDAudioDevice::new();
    let mut vs = d.voices;
    vs[2].wave = WaveForm::Saw;
    vs[2].wf_cnt = 0x120000;
    vs[2].wf_add = 0x3400;
    assert_eq!(step_voice(&mut vs, 2), Some(0x1234));
    assert_eq!(vs[2].wf_cnt, 0x123400);
}
