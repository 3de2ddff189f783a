use rust64::c64::sid::{SID, SIDAudioDevice, WaveForm, FilterType, SidFault};
use rust64::c64::memory::Memory;

fn memory() -> Memory {
    Memory::new_shared(vec![0u8; 0x2000], vec![0u8; 0x1000], vec![0u8; 0x2000])
}

#[test]
fn volume_and_filter_mode_register() {
    let mut d = SIDAudioDevice::new();
    let r = d.write_register(0xD418, 0x1F);
    assert!(r.is_ok());
    assert_eq!(d.volume, 0x0F);
    assert!(d.filter_type == FilterType::Lowpass);
}

#[test]
fn control_register_selects_waveform_and_gate() {
    let mut d = SIDAudioDevice::new();
    assert!(d.write_register(0xD404, 0x11).is_ok());
    assert!(d.voices[0].wave == WaveForm::Triangle);
    assert!(d.voices[0].gate);
}

#[test]
fn frequency_registers() {
    let mut d = SIDAudioDevice::new();
    assert!(d.write_register(0xD407, 0x34).is_ok());
    assert!(d.write_register(0xD408, 0x12).is_ok());
    assert_eq!(d.voices[1].freq, 0x1234);
}

#[test]
fn paddle_registers_read_ff() {
    let mut s = SID::new_shared();
    let mut mem = memory();
    assert_eq!(s.read_register(&mut mem, 0xD419), 0xFF);
    assert_eq!(s.read_register(&mut mem, 0xD41A), 0xFF);
    assert_eq!(s.read_register(&mut mem, 0xD400), 0x00);
}

#[test]
fn oscillator_register_reads_some_byte() {
    let mut s = SID::new_shared();
    let mut mem = memory();
    let _ = s.read_register(&mut mem, 0xD41B);
    let _ = s.read_register(&mut mem, 0xD41C);
}

#[test]
fn sid_registers_mirror_every_32_bytes() {
    let mut s = SID::new_shared();
    let mut mem = memory();
    assert!(s.write_register(&mut mem, 0xD438, 0x05).is_ok());
    assert_eq!(s.audio_device.volume, 0x05);
}

#[test]
fn sample_is_taken_per_update() {
    let mut s = SID::new_shared();
    let mut mem = memory();
    assert!(s.write_register(&mut mem, 0xD418, 0x09).is_ok());
    s.update();
    assert_eq!(s.audio_device.sample_buffer[0], 0x09);
    assert_eq!(s.audio_device.sample_idx, 1);
}

#[test]
fn impossible_waveform_is_refused() {
    let mut d = SIDAudioDevice::new();
    assert_eq!(d.write_register(0xD404, 0x90), Err(SidFault::ImpossibleWaveform));
}
