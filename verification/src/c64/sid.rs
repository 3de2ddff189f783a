// SID 6581 sound chip: register file, voices and envelope parameters
use vstd::prelude::*;
use crate::c64::memory::{Memory, MemType, io_after_write};

verus! {

pub const SAMPLE_FREQ: u32 = 44100;
pub const SID_FREQ: u32 = 985248;
/// SID clocks per sample frame.
pub const SID_CYCLES: u32 = 22;
/// Size of the buffer of sampled master volume values.
pub const NUM_SAMPLES: usize = 624;

/// Waveform selected in a voice's control register.
#[derive(PartialEq, Eq, Structural, Clone, Copy, Debug)]
pub enum WaveForm {
    NoWave,
    Triangle,
    Saw,
    TriSaw,
    Pulse,
    TriPulse,
    SawPulse,
    TriSawPulse,
    Noise,
}

/// Envelope generator phase of a voice.
#[derive(PartialEq, Eq, Structural, Clone, Copy, Debug)]
pub enum VoiceState {
    Idle,
    Attack,
    Decay,
    Release,
}

/// Filter mode selected in $D418.
#[derive(PartialEq, Eq, Structural, Clone, Copy, Debug)]
pub enum FilterType {
    NoFilter,
    Lowpass,
    Bandpass,
    LowBandpass,
    Highpass,
    Notch,
    HighBandpass,
    All,
}

/// A register write the chip cannot represent.
#[derive(PartialEq, Eq, Structural, Clone, Copy, Debug)]
pub enum SidFault {
    /// The waveform nibble of a control register was above 8.
    ImpossibleWaveform,
}

/// Envelope rate table: the per-sample level step for each attack/decay/release nibble.
pub open spec fn spec_eg_table(i: u8) -> u32 {
    let c: int = 22int * 65536int;
    let d: int = if i == 0 { 9int } else if i == 1 { 32 } else if i == 2 { 63 } else if i == 3 { 95 }
        else if i == 4 { 149 } else if i == 5 { 220 } else if i == 6 { 267 } else if i == 7 { 313 }
        else if i == 8 { 392 } else if i == 9 { 977 } else if i == 10 { 1954 } else if i == 11 { 3126 }
        else if i == 12 { 3906 } else if i == 13 { 11720 } else if i == 14 { 19531 } else { 31251 };
    (c / d) as u32
}

/// Envelope rate table lookup (the index is a nibble).
pub fn eg_table(i: u8) -> (r: u32)
    requires
        i < 16,
    ensures
        r == spec_eg_table(i),
{
    match i {
        0 => 160199,
        1 => 45056,
        2 => 22885,
        3 => 15176,
        4 => 9676,
        5 => 6553,
        6 => 5399,
        7 => 4606,
        8 => 3678,
        9 => 1475,
        10 => 737,
        11 => 461,
        12 => 369,
        13 => 123,
        14 => 73,
        _ => 46,
    }
}

/// One SID voice.
#[derive(PartialEq, Eq, Structural, Clone, Copy, Debug)]
pub struct SIDVoice {
    pub wave: WaveForm,
    pub state: VoiceState,
    pub modulator: usize,
    pub modulatee: usize,
    pub wf_cnt: u32,
    pub wf_add: u32,
    pub freq: u16,
    pub pw_val: u16,
    pub attack_add: u32,
    pub decay_sub: u32,
    pub release_sub: u32,
    pub sustain_level: u32,
    pub level: u32,
    pub noise: u32,
    pub gate: bool,
    pub ring: bool,
    pub test: bool,
    pub filter: bool,
    pub sync: bool,
    pub mute: bool,
}

/// A silent voice with the slowest envelope rates, keeping its modulation links.
pub open spec fn voice_reset(v: SIDVoice) -> SIDVoice {
    SIDVoice {
        wave: WaveForm::NoWave,
        state: VoiceState::Idle,
        wf_cnt: 0,
        wf_add: 0,
        freq: 0,
        pw_val: 0,
        attack_add: spec_eg_table(0),
        decay_sub: spec_eg_table(0),
        release_sub: spec_eg_table(0),
        sustain_level: 0,
        level: 0,
        noise: 0,
        gate: false,
        ring: false,
        test: false,
        filter: false,
        sync: false,
        mute: false,
        ..v
    }
}

impl SIDVoice {
    pub fn new() -> (v: SIDVoice)
        ensures
            v == voice_reset(v),
            v.modulator == 0 && v.modulatee == 0,
    {
        SIDVoice {
            wave: WaveForm::NoWave,
            state: VoiceState::Idle,
            modulator: 0,
            modulatee: 0,
            wf_cnt: 0,
            wf_add: 0,
            freq: 0,
            pw_val: 0,
            attack_add: eg_table(0),
            decay_sub: eg_table(0),
            release_sub: eg_table(0),
            sustain_level: 0,
            level: 0,
            noise: 0,
            gate: false,
            ring: false,
            test: false,
            filter: false,
            sync: false,
            mute: false,
        }
    }

    pub fn reset(&mut self)
        ensures
            *final(self) == voice_reset(*old(self)),
    {
        self.wave = WaveForm::NoWave;
        self.state = VoiceState::Idle;
        self.wf_cnt = 0;
        self.wf_add = 0;
        self.freq = 0;
        self.pw_val = 0;
        self.attack_add = eg_table(0);
        self.decay_sub = eg_table(0);
        self.release_sub = eg_table(0);
        self.sustain_level = 0;
        self.level = 0;
        self.noise = 0;
        self.gate = false;
        self.ring = false;
        self.test = false;
        self.filter = false;
        self.sync = false;
        self.mute = false;
    }
}

/// Registers $D420-$D7FF mirror $D400-$D41F.
pub open spec fn sid_mirror(addr: u16) -> u16 {
    if 0xD420 <= addr <= 0xD7FF {
        (0xD400 + addr % 0x20) as u16
    } else {
        addr
    }
}

/// The waveform encoded in the upper nibble of a control register value, if any.
pub open spec fn spec_waveform(value: u8) -> Option<WaveForm> {
    let n = (value >> 4) & 0x0F;
    if n == 0 { Some(WaveForm::NoWave) }
    else if n == 1 { Some(WaveForm::Triangle) }
    else if n == 2 { Some(WaveForm::Saw) }
    else if n == 3 { Some(WaveForm::TriSaw) }
    else if n == 4 { Some(WaveForm::Pulse) }
    else if n == 5 { Some(WaveForm::TriPulse) }
    else if n == 6 { Some(WaveForm::SawPulse) }
    else if n == 7 { Some(WaveForm::TriSawPulse) }
    else if n == 8 { Some(WaveForm::Noise) }
    else { None }
}

/// The filter mode encoded in bits 4-6 of $D418.
pub open spec fn spec_filter_type(value: u8) -> FilterType {
    let n = (value >> 4) & 7;
    if n == 0 { FilterType::NoFilter }
    else if n == 1 { FilterType::Lowpass }
    else if n == 2 { FilterType::Bandpass }
    else if n == 3 { FilterType::LowBandpass }
    else if n == 4 { FilterType::Highpass }
    else if n == 5 { FilterType::Notch }
    else if n == 6 { FilterType::HighBandpass }
    else { FilterType::All }
}

/// The SID register file and voice state that the audio renderer works from.
#[derive(Clone, Copy)]
pub struct SIDAudioDevice {
    pub last_sid_byte: u8,
    pub volume: u8,
    pub filter_type: FilterType,
    pub filter_freq: u8,
    pub filter_resonance: u8,
    pub voices: [SIDVoice; 3],
    pub sample_buffer: [u8; 624],
    pub sample_idx: usize,
}

/// The voices after the control register of voice `v` is set to `value`, `wave` being the
/// waveform that its high nibble selects.
pub open spec fn voices_after_control(vs: Seq<SIDVoice>, v: int, value: u8, wave: WaveForm) -> Seq<SIDVoice> {
    let gate_on = (value & 1) != 0;
    let w = SIDVoice { wave: wave, ..vs[v] };
    if gate_on != vs[v].gate {
        let st = if gate_on {
            VoiceState::Attack
        } else if vs[v].state == VoiceState::Idle {
            VoiceState::Idle
        } else {
            VoiceState::Release
        };
        let test_on = (value & 8) != 0;
        let w2 = SIDVoice {
            state: st,
            gate: gate_on,
            ring: (value & 4) != 0,
            test: test_on,
            wf_cnt: if test_on { 0 } else { w.wf_cnt },
            ..w
        };
        let m = vs[v].modulator as int;
        let vs1 = vs.update(v, w2);
        vs1.update(m, SIDVoice { sync: (value & 2) != 0, ..vs1[m] })
    } else {
        vs.update(v, w)
    }
}

/// Effect of writing `value` to voice register `r` (0-6) of voice `v`.
pub open spec fn voices_after_reg(vs: Seq<SIDVoice>, v: int, r: int, value: u8) -> Seq<SIDVoice> {
    let o = vs[v];
    if r == 0 {
        let f = (o.freq & 0xFF00) | value as u16;
        vs.update(v, SIDVoice { freq: f, wf_add: (22 * f) as u32, ..o })
    } else if r == 1 {
        let f = (o.freq & 0x00FF) | ((value as u16) << 8);
        vs.update(v, SIDVoice { freq: f, wf_add: (22 * f) as u32, ..o })
    } else if r == 2 {
        vs.update(v, SIDVoice { pw_val: (o.pw_val & 0x0F00) | value as u16, ..o })
    } else if r == 3 {
        vs.update(v, SIDVoice { pw_val: (o.pw_val & 0x00FF) | (((value as u16) & 0x000F) << 8), ..o })
    } else if r == 5 {
        vs.update(v, SIDVoice { attack_add: spec_eg_table(value >> 4), decay_sub: spec_eg_table(value & 0x0F), ..o })
    } else if r == 6 {
        vs.update(v, SIDVoice {
            sustain_level: (0x111111 * (value >> 4) as int) as u32,
            release_sub: spec_eg_table(value & 0x0F),
            ..o
        })
    } else {
        vs
    }
}

impl SIDAudioDevice {
    /// Well formed: the three voices modulate each other in a ring and the sample index is in range.
    pub open spec fn wf(&self) -> bool {
        &&& self.voices[0].modulator == 2 && self.voices[0].modulatee == 1
        &&& self.voices[1].modulator == 0 && self.voices[1].modulatee == 2
        &&& self.voices[2].modulator == 1 && self.voices[2].modulatee == 0
        &&& self.sample_idx < NUM_SAMPLES
    }

    /// Silent chip: all voices reset, no filter, volume 0, empty sample buffer.
    pub fn new() -> (d: SIDAudioDevice)
        ensures
            d.wf(),
            d.last_sid_byte == 0 && d.volume == 0 && d.filter_freq == 0 && d.filter_resonance == 0,
            d.filter_type == FilterType::NoFilter,
            forall|i: int| 0 <= i < 3 ==> #[trigger] d.voices[i] == voice_reset(d.voices[i]),
            forall|i: int| 0 <= i < NUM_SAMPLES ==> #[trigger] d.sample_buffer[i] == 0,
            d.sample_idx == 0,
    {
        let mut d = SIDAudioDevice {
            last_sid_byte: 0,
            volume: 0,
            filter_type: FilterType::NoFilter,
            filter_freq: 0,
            filter_resonance: 0,
            voices: [SIDVoice::new(), SIDVoice::new(), SIDVoice::new()],
            sample_buffer: [0; 624],
            sample_idx: 0,
        };
        d.voices[0].modulator = 2;
        d.voices[0].modulatee = 1;
        d.voices[1].modulator = 0;
        d.voices[1].modulatee = 2;
        d.voices[2].modulator = 1;
        d.voices[2].modulatee = 0;
        d
    }

    /// Back to the silent power-up state (the voice modulation links stay).
    pub fn reset(&mut self)
        requires
            old(self).wf(),
        ensures
            final(self).wf(),
            final(self).last_sid_byte == 0 && final(self).volume == 0,
            final(self).filter_freq == 0 && final(self).filter_resonance == 0,
            final(self).filter_type == FilterType::NoFilter,
            forall|i: int| 0 <= i < 3 ==> #[trigger] final(self).voices[i] == voice_reset(old(self).voices[i]),
            forall|i: int| 0 <= i < NUM_SAMPLES ==> #[trigger] final(self).sample_buffer[i] == 0,
            final(self).sample_idx == 0,
    {
        self.last_sid_byte = 0;
        self.voices[0].reset();
        self.voices[1].reset();
        self.voices[2].reset();
        self.volume = 0;
        self.filter_type = FilterType::NoFilter;
        self.filter_freq = 0;
        self.filter_resonance = 0;
        self.sample_idx = 0;
        let mut i: usize = 0;
        while i < NUM_SAMPLES
            invariant
                i <= NUM_SAMPLES,
                forall|k: int| 0 <= k < i ==> #[trigger] self.sample_buffer[k] == 0,
                self.wf(),
                self.last_sid_byte == 0 && self.volume == 0,
                self.filter_freq == 0 && self.filter_resonance == 0,
                self.filter_type == FilterType::NoFilter,
                forall|k: int| 0 <= k < 3 ==> #[trigger] self.voices[k] == voice_reset(old(self).voices[k]),
                self.sample_idx == 0,
            decreases NUM_SAMPLES - i,
        {
            self.sample_buffer[i] = 0;
            i += 1;
        }
    }

    /// Samples the master volume into the ring buffer (once per raster line).
    pub fn update(&mut self)
        requires
            old(self).wf(),
        ensures
            final(self).wf(),
            final(self).sample_buffer@ == old(self).sample_buffer@.update(old(self).sample_idx as int, old(self).volume),
            final(self).sample_idx == (old(self).sample_idx + 1) % (NUM_SAMPLES as int),
            final(self).voices == old(self).voices,
            final(self).volume == old(self).volume,
            final(self).last_sid_byte == old(self).last_sid_byte,
            final(self).filter_type == old(self).filter_type,
            final(self).filter_freq == old(self).filter_freq,
            final(self).filter_resonance == old(self).filter_resonance,
    {
        let idx = self.sample_idx;
        self.sample_buffer[idx] = self.volume;
        self.sample_idx = (self.sample_idx + 1) % NUM_SAMPLES;
    }

    /// Reads a register: the potentiometers read $FF, oscillator 3 and envelope 3 read a
    /// random byte, the write-only registers read the last byte written.
    pub fn read_register(&mut self, addr: u16) -> (v: u8)
        ensures
            ({
                let a = sid_mirror(addr);
                &&& (a == 0xD419 || a == 0xD41A) ==> v == 0xFF && final(self).last_sid_byte == 0
                &&& (a == 0xD41B || a == 0xD41C) ==> final(self).last_sid_byte == 0
                &&& !(0xD419 <= a <= 0xD41C) ==> v == old(self).last_sid_byte
                    && final(self).last_sid_byte == old(self).last_sid_byte
            }),
            *final(self) == (SIDAudioDevice { last_sid_byte: final(self).last_sid_byte, ..*old(self) }),
        decreases addr,
    {
        if 0xD419 <= addr && addr <= 0xD41A {
            self.last_sid_byte = 0;
            0xFF
        } else if 0xD41B <= addr && addr <= 0xD41C {
            self.last_sid_byte = 0;
            random_byte()
        } else if 0xD420 <= addr && addr <= 0xD7FF {
            self.read_register(0xD400 + (addr % 0x0020))
        } else {
            self.last_sid_byte
        }
    }

    /// All fields but the voices are the same.
    pub open spec fn same_except_voices(&self, o: &SIDAudioDevice) -> bool {
        &&& self.last_sid_byte == o.last_sid_byte
        &&& self.volume == o.volume
        &&& self.filter_type == o.filter_type
        &&& self.filter_freq == o.filter_freq
        &&& self.filter_resonance == o.filter_resonance
        &&& self.sample_buffer == o.sample_buffer
        &&& self.sample_idx == o.sample_idx
    }

    /// Whether a write asks for the audio filter coefficients to be recomputed.
    pub open spec fn filter_changed(&self, a: u16, value: u8) -> bool {
        ||| a == 0xD416 && self.filter_freq != value
        ||| a == 0xD417 && self.filter_resonance != (value >> 4)
        ||| a == 0xD418 && self.filter_type != spec_filter_type(value)
    }

    /// The relation between the chip before (`o`) and after (`f`) a write of `value` to the
    /// register at `a` ($D400-$D41F) that returned `r`.
    pub open spec fn write_effect(o: SIDAudioDevice, f: SIDAudioDevice, a: u16, value: u8, r: Result<bool, SidFault>) -> bool {
        let is_voice = 0xD400 <= a <= 0xD414;
        let v = (a - 0xD400) / 7;
        let reg = (a - 0xD400) % 7;
        if is_voice && reg == 4 && spec_waveform(value) is None {
            r == Err::<bool, SidFault>(SidFault::ImpossibleWaveform)
        } else {
            &&& r == Ok::<bool, SidFault>(o.filter_changed(a, value))
            &&& f.last_sid_byte == value
            &&& f.sample_buffer == o.sample_buffer && f.sample_idx == o.sample_idx
            &&& is_voice && reg == 4 ==> f.voices@ == voices_after_control(o.voices@, v, value, spec_waveform(value)->0)
            &&& is_voice && reg != 4 ==> f.voices@ == voices_after_reg(o.voices@, v, reg, value)
            &&& !(0xD416 <= a <= 0xD418) ==> f.volume == o.volume && f.filter_type == o.filter_type
                && f.filter_freq == o.filter_freq && f.filter_resonance == o.filter_resonance
            &&& a == 0xD416 ==> f.filter_freq == value && f.voices == o.voices && f.volume == o.volume
                && f.filter_type == o.filter_type && f.filter_resonance == o.filter_resonance
            &&& a == 0xD417 ==> f.filter_resonance == value >> 4 && f.volume == o.volume
                && f.filter_type == o.filter_type && f.filter_freq == o.filter_freq
                && f.voices[0] == SIDVoice { filter: (value & 1) != 0, ..o.voices[0] }
                && f.voices[1] == SIDVoice { filter: (value & 2) != 0, ..o.voices[1] }
                && f.voices[2] == SIDVoice { filter: (value & 4) != 0, ..o.voices[2] }
            &&& a == 0xD418 ==> f.volume == value & 0x0F && f.filter_type == spec_filter_type(value)
                && f.filter_freq == o.filter_freq && f.filter_resonance == o.filter_resonance
                && f.voices@ == o.voices@.update(2, SIDVoice { mute: (value & 0x80) != 0, ..o.voices[2] })
            &&& (a == 0xD415 || 0xD419 <= a) ==> f.voices == o.voices
        }
    }

    /// Writes a register ($D400-$D7FF, mirrored every 32 bytes). Returns whether the filter
    /// coefficients have to be recomputed; a control register value with a waveform nibble
    /// above 8 is refused.
    pub fn write_register(&mut self, addr: u16, value: u8) -> (r: Result<bool, SidFault>)
        requires
            old(self).wf(),
        ensures
            final(self).wf(),
            SIDAudioDevice::write_effect(*old(self), *final(self), sid_mirror(addr), value, r),
        decreases addr,
    {
        if 0xD420 <= addr && addr <= 0xD7FF {
            self.write_register(0xD400 + (addr % 0x0020), value)
        } else if 0xD400 <= addr && addr <= 0xD414 {
            self.last_sid_byte = value;
            let off = addr - 0xD400;
            let v = (off / 7) as usize;
            let reg = off % 7;
            if reg == 4 {
                self.set_control_register(v, value)?;
            } else {
                self.write_voice_reg(v, reg, value);
            }
            Ok(false)
        } else if 0xD416 <= addr && addr <= 0xD418 {
            self.last_sid_byte = value;
            Ok(self.write_filter_reg(addr, value))
        } else {
            self.last_sid_byte = value;
            Ok(false)
        }
    }

    /// Frequency, pulse width and envelope registers of voice `v`.
    fn write_voice_reg(&mut self, v: usize, reg: u16, value: u8)
        requires
            old(self).wf(),
            v < 3,
            reg < 7,
            reg != 4,
        ensures
            final(self).wf(),
            final(self).voices@ == voices_after_reg(old(self).voices@, v as int, reg as int, value),
            *final(self) == (SIDAudioDevice { voices: final(self).voices, ..*old(self) }),
    {
        let mut o = self.voices[v];
        if reg == 0 {
            o.freq = (o.freq & 0xFF00) | value as u16;
            o.wf_add = SID_CYCLES * o.freq as u32;
        } else if reg == 1 {
            o.freq = (o.freq & 0x00FF) | ((value as u16) << 8);
            o.wf_add = SID_CYCLES * o.freq as u32;
        } else if reg == 2 {
            o.pw_val = (o.pw_val & 0x0F00) | value as u16;
        } else if reg == 3 {
            o.pw_val = (o.pw_val & 0x00FF) | (((value as u16) & 0x000F) << 8);
        } else if reg == 5 {
            assert((value >> 4) < 16 && (value & 0x0F) < 16) by (bit_vector);
            o.attack_add = eg_table(value >> 4);
            o.decay_sub = eg_table(value & 0x0F);
        } else {
            assert((value >> 4) < 16 && (value & 0x0F) < 16) by (bit_vector);
            o.sustain_level = 0x111111 * (value >> 4) as u32;
            o.release_sub = eg_table(value & 0x0F);
        }
        self.voices[v] = o;
        assert(self.voices@ =~= voices_after_reg(old(self).voices@, v as int, reg as int, value));
    }

    /// Filter cutoff, resonance/routing and mode/volume registers ($D416-$D418).
    fn write_filter_reg(&mut self, a: u16, value: u8) -> (changed: bool)
        requires
            old(self).wf(),
            0xD416 <= a <= 0xD418,
            old(self).last_sid_byte == value,
        ensures
            final(self).wf(),
            SIDAudioDevice::write_effect(*old(self), *final(self), a, value, Ok(changed)),
    {
        if a == 0xD416 {
            let changed = self.filter_freq != value;
            if changed {
                self.filter_freq = value;
            }
            changed
        } else if a == 0xD417 {
            self.write_resonance_reg(value)
        } else {
            self.write_mode_reg(value)
        }
    }

    /// Routes voice `i` through the filter or not.
    fn set_voice_filter(&mut self, i: usize, on: bool)
        requires
            i < 3,
        ensures
            final(self).voices@ == old(self).voices@.update(i as int, (SIDVoice { filter: on, ..old(self).voices[i as int] })),
            final(self).same_except_voices(old(self)),
    {
        self.voices[i].filter = on;
        assert(self.voices@ =~= old(self).voices@.update(i as int, (SIDVoice { filter: on, ..old(self).voices[i as int] })));
    }

    /// $D417: filter routing of the voices and resonance.
    #[verifier::rlimit(100)]
    fn write_resonance_reg(&mut self, value: u8) -> (changed: bool)
        requires
            old(self).wf(),
            old(self).last_sid_byte == value,
        ensures
            changed == (old(self).filter_resonance != (value >> 4)),
            final(self).filter_resonance == value >> 4,
            final(self).last_sid_byte == old(self).last_sid_byte && final(self).volume == old(self).volume,
            final(self).filter_type == old(self).filter_type && final(self).filter_freq == old(self).filter_freq,
            final(self).sample_buffer == old(self).sample_buffer && final(self).sample_idx == old(self).sample_idx,
            final(self).voices@ == old(self).voices@.update(0, (SIDVoice { filter: (value & 1) != 0, ..old(self).voices[0] }))
                .update(1, (SIDVoice { filter: (value & 2) != 0, ..old(self).voices[1] }))
                .update(2, (SIDVoice { filter: (value & 4) != 0, ..old(self).voices[2] })),
    {
        let ghost o = *self;
        self.set_voice_filter(0, (value & 1) != 0);
        self.set_voice_filter(1, (value & 2) != 0);
        self.set_voice_filter(2, (value & 4) != 0);
        let changed = self.filter_resonance != (value >> 4);
        if changed {
            self.filter_resonance = value >> 4;
        }
        assert(self.last_sid_byte == o.last_sid_byte && self.volume == o.volume && self.filter_type == o.filter_type
            && self.filter_freq == o.filter_freq && self.sample_buffer == o.sample_buffer && self.sample_idx == o.sample_idx);
        changed
    }

    /// $D418: volume, voice 3 mute and filter mode.
    #[verifier::rlimit(30)]
    fn write_mode_reg(&mut self, value: u8) -> (changed: bool)
        requires
            old(self).wf(),
            old(self).last_sid_byte == value,
        ensures
            final(self).wf(),
            changed == (old(self).filter_type != spec_filter_type(value)),
            final(self).volume == value & 0x0F,
            final(self).filter_type == spec_filter_type(value),
            final(self).voices@ == old(self).voices@.update(2, (SIDVoice { mute: (value & 0x80) != 0, ..old(self).voices[2] })),
            *final(self) == (SIDAudioDevice {
                volume: final(self).volume,
                filter_type: final(self).filter_type,
                voices: final(self).voices,
                ..*old(self)
            }),
    {
        let ghost o = *self;
        self.volume = value & 0x0F;
        self.voices[2].mute = (value & 0x80) != 0;
        assert(self.voices@ =~= o.voices@.update(2, SIDVoice { mute: (value & 0x80) != 0, ..o.voices[2] }));
        let f_type = decode_filter_type(value);
        let changed = self.filter_type != f_type;
        if changed {
            self.filter_type = f_type;
        }
        changed
    }

    /// Writes a voice control register: waveform, gate, sync, ring modulation, test bit.
    #[verifier::rlimit(30)]
    fn set_control_register(&mut self, v_num: usize, value: u8) -> (r: Result<(), SidFault>)
        requires
            old(self).wf(),
            v_num < 3,
        ensures
            final(self).wf(),
            spec_waveform(value) is None ==> r == Err::<(), SidFault>(SidFault::ImpossibleWaveform)
                && *final(self) == *old(self),
            spec_waveform(value) is Some ==> r is Ok
                && final(self).voices@ == voices_after_control(old(self).voices@, v_num as int, value, spec_waveform(value)->0),
            final(self).last_sid_byte == old(self).last_sid_byte,
            final(self).volume == old(self).volume,
            final(self).filter_type == old(self).filter_type,
            final(self).filter_freq == old(self).filter_freq,
            final(self).filter_resonance == old(self).filter_resonance,
            final(self).sample_buffer == old(self).sample_buffer,
            final(self).sample_idx == old(self).sample_idx,
    {
        let wave = match decode_waveform(value) {
            Some(w) => w,
            None => {
                return Err(SidFault::ImpossibleWaveform);
            },
        };
        let old_v = self.voices[v_num];
        let mut nv = old_v;
        nv.wave = wave;
        let gate_on = (value & 1) != 0;
        let sync_on = (value & 2) != 0;
        let ring_on = (value & 4) != 0;
        let test_on = (value & 8) != 0;
        if gate_on != old_v.gate {
            if gate_on {
                nv.state = VoiceState::Attack;
            } else {
                match old_v.state {
                    VoiceState::Idle => {},
                    _ => nv.state = VoiceState::Release,
                }
            }
            nv.gate = gate_on;
            nv.ring = ring_on;
            nv.test = test_on;
            if test_on {
                nv.wf_cnt = 0;
            }
            self.voices[v_num] = nv;
            let m = old_v.modulator;
            let mut mv = self.voices[m];
            mv.sync = sync_on;
            self.voices[m] = mv;
        } else {
            self.voices[v_num] = nv;
        }
        assert(self.voices@ =~= voices_after_control(old(self).voices@, v_num as int, value, wave));
        Ok(())
    }
}

/// Decodes the waveform nibble of a control register value.
fn decode_waveform(value: u8) -> (w: Option<WaveForm>)
    ensures
        w == spec_waveform(value),
{
    let n: u8 = (value >> 4) & 0x0F;
    if n == 0 {
        Some(WaveForm::NoWave)
    } else if n == 1 {
        Some(WaveForm::Triangle)
    } else if n == 2 {
        Some(WaveForm::Saw)
    } else if n == 3 {
        Some(WaveForm::TriSaw)
    } else if n == 4 {
        Some(WaveForm::Pulse)
    } else if n == 5 {
        Some(WaveForm::TriPulse)
    } else if n == 6 {
        Some(WaveForm::SawPulse)
    } else if n == 7 {
        Some(WaveForm::TriSawPulse)
    } else if n == 8 {
        Some(WaveForm::Noise)
    } else {
        None
    }
}

/// The SID as the CPU sees it: the chip state plus the I/O RAM copy of its registers
/// (kept so that the debugger can show the last values).
pub struct SID {
    pub audio_device: SIDAudioDevice,
}

impl SID {
    /// A silent chip.
    pub fn new_shared() -> (s: SID)
        ensures
            s.audio_device.wf(),
            s.audio_device.volume == 0,
            s.audio_device.filter_type == FilterType::NoFilter,
    {
        SID { audio_device: SIDAudioDevice::new() }
    }

    pub fn reset(&mut self)
        requires
            old(self).audio_device.wf(),
        ensures
            final(self).audio_device.wf(),
            final(self).audio_device.volume == 0,
            final(self).audio_device.filter_type == FilterType::NoFilter,
            final(self).audio_device.sample_idx == 0,
            forall|i: int| 0 <= i < 3 ==> #[trigger] final(self).audio_device.voices[i]
                == voice_reset(old(self).audio_device.voices[i]),
    {
        self.audio_device.reset();
    }

    /// Samples the master volume (called once per raster line).
    pub fn update(&mut self)
        requires
            old(self).audio_device.wf(),
        ensures
            final(self).audio_device.wf(),
            final(self).audio_device.sample_buffer@ == old(self).audio_device.sample_buffer@.update(
                old(self).audio_device.sample_idx as int, old(self).audio_device.volume),
            final(self).audio_device.sample_idx == (old(self).audio_device.sample_idx + 1) % (NUM_SAMPLES as int),
    {
        self.audio_device.update();
    }

    /// A CPU read of $D400-$D7FF; the value read is also stored in I/O RAM.
    pub fn read_register(&mut self, mem: &mut Memory, addr: u16) -> (v: u8)
        requires
            old(mem).wf(),
            0xD400 <= addr <= 0xD7FF,
        ensures
            final(mem).wf(),
            ({
                let a = sid_mirror(addr);
                &&& (a == 0xD419 || a == 0xD41A) ==> v == 0xFF
                &&& !(0xD419 <= a <= 0xD41C) ==> v == 0
                &&& final(mem)@ == old(mem)@.with_bank(MemType::Io, old(mem)@.io.after_write(a, v))
                &&& final(self).audio_device.voices == old(self).audio_device.voices
                &&& final(self).audio_device.volume == old(self).audio_device.volume
                &&& final(self).audio_device.sample_idx == old(self).audio_device.sample_idx
                &&& final(self).audio_device.wf() == old(self).audio_device.wf()
            }),
        decreases addr,
    {
        if 0xD419 <= addr && addr <= 0xD41C {
            let rval = self.audio_device.read_register(addr);
            mem.get_ram_bank(MemType::Io).write(addr, rval);
            rval
        } else if 0xD420 <= addr {
            self.read_register(mem, 0xD400 + (addr % 0x0020))
        } else {
            mem.get_ram_bank(MemType::Io).write(addr, 0);
            0
        }
    }

    /// A CPU write of $D400-$D7FF: updates the chip and stores the value in I/O RAM. Returns
    /// whether the filter coefficients have to be recomputed.
    pub fn write_register(&mut self, mem: &mut Memory, addr: u16, value: u8) -> (r: Result<bool, SidFault>)
        requires
            old(mem).wf(),
            old(self).audio_device.wf(),
            0xD400 <= addr <= 0xD7FF,
        ensures
            final(mem).wf(),
            final(self).audio_device.wf(),
            SIDAudioDevice::write_effect(old(self).audio_device, final(self).audio_device, sid_mirror(addr), value, r),
            r is Ok ==> final(mem)@ == old(mem)@.with_bank(MemType::Io, old(mem)@.io.after_write(addr, value)),
            r is Err ==> final(mem)@ == old(mem)@,
    {
        let r = self.audio_device.write_register(addr, value);
        if r.is_ok() {
            mem.get_ram_bank(MemType::Io).write(addr, value);
        }
        r
    }
}

/// Decodes the filter mode bits of $D418.
fn decode_filter_type(value: u8) -> (t: FilterType)
    ensures
        t == spec_filter_type(value),
{
    let n: u8 = (value >> 4) & 7;
    if n == 0 {
        FilterType::NoFilter
    } else if n == 1 {
        FilterType::Lowpass
    } else if n == 2 {
        FilterType::Bandpass
    } else if n == 3 {
        FilterType::LowBandpass
    } else if n == 4 {
        FilterType::Highpass
    } else if n == 5 {
        FilterType::Notch
    } else if n == 6 {
        FilterType::HighBandpass
    } else {
        FilterType::All
    }
}

/// Law: writing the attack/decay register of voice `v` ($D405, $D40C, $D413) takes the
/// attack rate from the value's high nibble and the decay rate from its low nibble (the
/// envelope rate table entry for each), and changes nothing else of the voices.
pub proof fn lemma_attack_decay_nibbles(o: SIDAudioDevice, f: SIDAudioDevice, v: int, value: u8, r: Result<bool, SidFault>)
    requires
        0 <= v < 3,
        SIDAudioDevice::write_effect(o, f, (0xD405 + 7 * v) as u16, value, r),
    ensures
        r is Ok,
        f.voices[v].attack_add == spec_eg_table((value / 16) as u8),
        f.voices[v].decay_sub == spec_eg_table((value % 16) as u8),
        f.voices@ == o.voices@.update(v, SIDVoice {
            attack_add: f.voices[v].attack_add,
            decay_sub: f.voices[v].decay_sub,
            ..o.voices[v]
        }),
{
    assert((value >> 4) == (value / 16) as u8 && (value & 0x0F) == (value % 16) as u8) by (bit_vector);
    assert(f.voices@ =~= o.voices@.update(v, SIDVoice {
            attack_add: f.voices[v].attack_add,
            decay_sub: f.voices[v].decay_sub,
            ..o.voices[v]
        }));
}

/// Law: writing the sustain/release register of voice `v` ($D406, $D40D, $D414) sets
/// the sustain level to the value's high nibble repeated over the six nibbles of the
/// 24-bit envelope level and takes the release rate from its low nibble; nothing else of
/// the voices changes.
pub proof fn lemma_sustain_release_nibbles(o: SIDAudioDevice, f: SIDAudioDevice, v: int, value: u8, r: Result<bool, SidFault>)
    requires
        0 <= v < 3,
        SIDAudioDevice::write_effect(o, f, (0xD406 + 7 * v) as u16, value, r),
    ensures
        r is Ok,
        f.voices[v].sustain_level == (value / 16) * 0x111111,
        f.voices[v].release_sub == spec_eg_table((value % 16) as u8),
        f.voices@ == o.voices@.update(v, SIDVoice {
            sustain_level: f.voices[v].sustain_level,
            release_sub: f.voices[v].release_sub,
            ..o.voices[v]
        }),
{
    assert((value >> 4) == (value / 16) as u8 && (value & 0x0F) == (value % 16) as u8) by (bit_vector);
    assert(f.voices@ =~= o.voices@.update(v, SIDVoice {
            sustain_level: f.voices[v].sustain_level,
            release_sub: f.voices[v].release_sub,
            ..o.voices[v]
        }));
}

/// A random byte for the oscillator 3 and envelope 3 read-outs.
/// Calls `rand::random::<u8>()`; nothing is claimed of the value beyond its type.
#[verifier::external_body]
fn random_byte() -> u8 {
    rand::random::<u8>()
}

} // verus!
