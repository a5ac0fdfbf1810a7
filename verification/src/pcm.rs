//! PCM conversion stage: turns fixed-point synthesis samples into interleaved
//! 16-bit chunks of a fixed capacity, padding a short final chunk with
//! silence while reporting the true sample count, and serialises chunks as
//! little-endian bytes for the raw backend.

use vstd::prelude::*;
use vstd::arithmetic::div_mod::lemma_fundamental_div_mod_converse;
use crate::config::{
    resolved_channels, supported_sampling_frequency, Channels, ConfigError, EncoderConfig,
    SynthesisConditions, MAX_SPEECH_SAMPLES,
};
use crate::config::{derive_chunk_size, spec_chunk_size};

verus! {

/// Saturation of a scaled sample into the signed 16-bit domain: values above
/// the positive bound or below the negative bound are clamped, never wrapped.
pub open spec fn spec_saturate(v: i64) -> i16 {
    if v > 32767 {
        32767i16
    } else if v < -32768 {
        -32768i16
    } else {
        v as i16
    }
}

/// Low byte of a 16-bit sample in little-endian order.
pub open spec fn le_lo(s: i16) -> u8 {
    (s as u16 % 256) as u8
}

/// High byte of a 16-bit sample in little-endian order.
pub open spec fn le_hi(s: i16) -> u8 {
    (s as u16 / 256) as u8
}

/// The 16-bit value carried at byte position `j` of a little-endian PCM16
/// stream interleaved over `cnt` channels comes from source sample
/// `j / 2 / cnt`; even positions carry its low byte, odd ones its high byte.
pub open spec fn raw_byte_at(samples: Seq<i64>, cnt: int, j: int) -> u8 {
    let v = spec_saturate(samples[j / 2 / cnt]);
    if j % 2 == 0 {
        le_lo(v)
    } else {
        le_hi(v)
    }
}

/// Clamps a scaled sample (full scale at +/-32768) to the signed 16-bit
/// domain. Out-of-range values saturate at the bounds instead of wrapping.
pub fn saturate_sample(v: i64) -> (s: i16)
    ensures
        s == spec_saturate(v),
        -32768 <= s <= 32767,
{
    if v > 32767 {
        32767
    } else if v < -32768 {
        -32768
    } else {
        v as i16
    }
}

/// One converted chunk: an interleaved 16-bit buffer filled to the stage's
/// full capacity, and the number of leading values that carry generated
/// audio; the rest is silence padding.
pub struct PcmChunk {
    pub samples: Vec<i16>,
    pub valid: usize,
}

/// One raw-backend output: little-endian PCM16 bytes trimmed to the
/// generated audio, and the number of 16-bit values those bytes carry.
pub struct RawChunk {
    pub bytes: Vec<u8>,
    pub valid_samples: usize,
}

/// The PCM conversion stage. `chunk_size` counts synthesis periods per
/// encode call, `period` counts source samples per synthesis period, and the
/// two together with the channel count fix the capacity of every buffer the
/// stage produces.
pub struct PcmEncoder {
    pub chunk_size: usize,
    pub period: usize,
    pub channels: Channels,
}

/// The chunk size a configuration asks for: the explicit override when one
/// is given, otherwise the value derived from the synthesis conditions.
pub open spec fn requested_chunk_size(
    conditions: SynthesisConditions,
    config: EncoderConfig,
) -> int {
    match config.chunk_size {
        Some(c) => c as int,
        None => spec_chunk_size(conditions.sampling_frequency, conditions.synthesis_period),
    }
}

/// Whether a raw-stage configuration is accepted at construction: a
/// supported sampling frequency, a positive synthesis period, and a chunk
/// size that is positive and keeps the buffer within the supported maximum.
pub open spec fn pcm_config_ok(conditions: SynthesisConditions, config: EncoderConfig) -> bool {
    &&& supported_sampling_frequency(conditions.sampling_frequency)
    &&& conditions.synthesis_period > 0
    &&& requested_chunk_size(conditions, config) > 0
    &&& requested_chunk_size(conditions, config) * conditions.synthesis_period
        * resolved_channels(config).spec_count() <= MAX_SPEECH_SAMPLES
}

/// The error a rejected raw-stage configuration is reported with; `None`
/// exactly when the configuration is accepted.
pub open spec fn pcm_config_error(
    conditions: SynthesisConditions,
    config: EncoderConfig,
) -> Option<ConfigError> {
    if !supported_sampling_frequency(conditions.sampling_frequency) {
        Some(ConfigError::UnsupportedSamplingFrequency)
    } else if conditions.synthesis_period == 0 {
        Some(ConfigError::InvalidSynthesisPeriod)
    } else if requested_chunk_size(conditions, config) == 0 || requested_chunk_size(
        conditions,
        config,
    ) * conditions.synthesis_period * resolved_channels(config).spec_count()
        > MAX_SPEECH_SAMPLES {
        Some(ConfigError::InvalidChunkSize)
    } else {
        None
    }
}

impl PcmEncoder {
    /// Structural invariant: positive framing parameters and a buffer
    /// capacity within the supported maximum.
    pub open spec fn wf(self) -> bool {
        &&& 1 <= self.chunk_size
        &&& 1 <= self.period
        &&& self.chunk_size * self.period * self.channels.spec_count() <= MAX_SPEECH_SAMPLES
    }

    /// Source samples consumed per encode call (per channel).
    pub open spec fn samples_per_chunk(self) -> int {
        self.chunk_size * self.period
    }

    /// 16-bit values in one full interleaved chunk.
    pub open spec fn spec_speech_len(self) -> int {
        self.chunk_size * self.period * self.channels.spec_count()
    }

    /// Builds a PCM stage for the given synthesis conditions. Construction
    /// is the only place a configuration error can arise; generation itself
    /// never fails.
    pub fn new(conditions: &SynthesisConditions, config: &EncoderConfig) -> (r: Result<
        PcmEncoder,
        ConfigError,
    >)
        ensures
            r is Ok <==> pcm_config_ok(*conditions, *config),
            r is Ok ==> ({
                let e = r->Ok_0;
                &&& e.wf()
                &&& e.chunk_size == requested_chunk_size(*conditions, *config)
                &&& e.period == conditions.synthesis_period
                &&& e.channels == resolved_channels(*config)
            }),
            r matches Err(e) ==> pcm_config_error(*conditions, *config) == Some(e),
    {
        let f = conditions.sampling_frequency;
        if !(f == 8000 || f == 12000 || f == 16000 || f == 24000 || f == 48000) {
            return Err(ConfigError::UnsupportedSamplingFrequency);
        }
        if conditions.synthesis_period == 0 {
            return Err(ConfigError::InvalidSynthesisPeriod);
        }
        let chunk_size: u32 = match config.chunk_size {
            Some(c) => c,
            None => derive_chunk_size(conditions),
        };
        if chunk_size == 0 {
            return Err(ConfigError::InvalidChunkSize);
        }
        let channels = match config.channels {
            Some(c) => c,
            None => Channels::Stereo,
        };
        proof {
            assert((chunk_size as int) * (conditions.synthesis_period as int)
                < 0x10000000000000000) by (nonlinear_arith)
                requires
                    chunk_size < 0x100000000,
                    conditions.synthesis_period < 0x100000000,
            ;
        }
        let per_channel: u64 = (chunk_size as u64) * (conditions.synthesis_period as u64);
        if per_channel > MAX_SPEECH_SAMPLES {
            proof {
                assert(per_channel * channels.spec_count() > MAX_SPEECH_SAMPLES)
                    by (nonlinear_arith)
                    requires
                        per_channel > MAX_SPEECH_SAMPLES,
                        channels.spec_count() >= 1,
                ;
            }
            return Err(ConfigError::InvalidChunkSize);
        }
        let total: u64 = per_channel * (channels.count() as u64);
        if total > MAX_SPEECH_SAMPLES {
            return Err(ConfigError::InvalidChunkSize);
        }
        Ok(PcmEncoder {
            chunk_size: chunk_size as usize,
            period: conditions.synthesis_period as usize,
            channels,
        })
    }

    /// Source samples consumed per encode call (per channel), as a run-time
    /// value for callers that drive the generator.
    pub fn chunk_capacity(&self) -> (n: usize)
        requires
            self.wf(),
        ensures
            n == self.samples_per_chunk(),
    {
        proof {
            assert(self.chunk_size * self.period <= self.chunk_size * self.period
                * self.channels.spec_count()) by (nonlinear_arith)
                requires
                    self.chunk_size >= 0,
                    self.period >= 0,
                    self.channels.spec_count() >= 1,
            ;
        }
        self.chunk_size * self.period
    }

    /// Length, in 16-bit values, of one full interleaved chunk buffer.
    pub fn speech_len(&self) -> (n: usize)
        requires
            self.wf(),
        ensures
            n == self.spec_speech_len(),
    {
        let per_channel = self.chunk_capacity();
        per_channel * self.channels.count()
    }

    /// Converts one cycle's worth of generated samples into a full
    /// interleaved chunk. Every generated sample is saturated into the
    /// 16-bit domain and repeated once per channel; when the generator ran
    /// short, the tail of the buffer is silence and `valid` reports how many
    /// leading values carry audio.
    pub fn generate_i16(&self, samples: &Vec<i64>) -> (r: PcmChunk)
        requires
            self.wf(),
            samples@.len() <= self.samples_per_chunk(),
        ensures
            r.samples@.len() == self.spec_speech_len(),
            r.valid == samples@.len() * self.channels.spec_count(),
            forall|j: int|
                0 <= j < r.valid ==> r.samples@[j] == spec_saturate(
                    samples@[j / self.channels.spec_count()],
                ),
            forall|j: int| r.valid <= j < r.samples@.len() ==> r.samples@[j] == 0,
    {
        let count = self.channels.count();
        let cap = self.speech_len();
        let ghost cnt = self.channels.spec_count();
        proof {
            assert(samples@.len() * cnt <= self.samples_per_chunk() * cnt) by (nonlinear_arith)
                requires
                    samples@.len() <= self.samples_per_chunk(),
                    cnt >= 1,
            ;
        }
        let valid_count: usize = samples.len() * count;
        let mut data: Vec<i16> = Vec::new();
        let mut i: usize = 0;
        while i < samples.len()
            invariant
                count == cnt,
                1 <= cnt <= 2,
                i <= samples@.len(),
                samples@.len() * cnt <= self.spec_speech_len(),
                data@.len() == i * cnt,
                forall|j: int|
                    0 <= j < data@.len() ==> data@[j] == spec_saturate(samples@[j / cnt]),
            decreases samples@.len() - i,
        {
            let s = saturate_sample(samples[i]);
            proof {
                assert((i + 1) * cnt == i * cnt + cnt) by (nonlinear_arith);
                assert((i + 1) * cnt <= samples@.len() * cnt) by (nonlinear_arith)
                    requires
                        i + 1 <= samples@.len(),
                        cnt >= 1,
                ;
            }
            data.push(s);
            if count == 2 {
                data.push(s);
            }
            proof {
                assert forall|j: int| 0 <= j < data@.len() implies data@[j] == spec_saturate(
                    samples@[j / cnt],
                ) by {
                    if i * cnt <= j {
                        lemma_fundamental_div_mod_converse(j, cnt, i as int, j - i * cnt);
                    }
                }
            }
            i += 1;
        }
        while data.len() < cap
            invariant
                cap == self.spec_speech_len(),
                valid_count == samples@.len() * cnt,
                valid_count <= data@.len(),
                data@.len() <= cap,
                forall|j: int|
                    0 <= j < valid_count ==> data@[j] == spec_saturate(samples@[j / cnt]),
                forall|j: int| valid_count <= j < data@.len() ==> data@[j] == 0,
            decreases cap - data@.len(),
        {
            data.push(0);
        }
        PcmChunk { samples: data, valid: valid_count }
    }

    /// Raw-backend generation: one cycle's samples become little-endian
    /// PCM16 bytes. The result is trimmed to the generated audio, so a full
    /// cycle yields exactly chunk capacity times channel count times two
    /// bytes, and a short final cycle yields proportionally fewer, with the
    /// true 16-bit value count reported alongside.
    pub fn generate(&self, samples: &Vec<i64>) -> (r: RawChunk)
        requires
            self.wf(),
            samples@.len() <= self.samples_per_chunk(),
        ensures
            r.valid_samples == samples@.len() * self.channels.spec_count(),
            r.bytes@.len() == 2 * r.valid_samples,
            forall|j: int|
                0 <= j < r.bytes@.len() ==> r.bytes@[j] == raw_byte_at(
                    samples@,
                    self.channels.spec_count(),
                    j,
                ),
    {
        let chunk = self.generate_i16(samples);
        let ghost cnt = self.channels.spec_count();
        let mut bytes: Vec<u8> = Vec::new();
        let mut j: usize = 0;
        while j < chunk.valid
            invariant
                cnt == self.channels.spec_count(),
                1 <= cnt,
                j <= chunk.valid,
                chunk.valid == samples@.len() * cnt,
                chunk.valid <= chunk.samples@.len(),
                forall|k: int|
                    0 <= k < chunk.valid ==> chunk.samples@[k] == spec_saturate(
                        samples@[k / cnt],
                    ),
                bytes@.len() == 2 * j,
                forall|k: int| 0 <= k < bytes@.len() ==> bytes@[k] == raw_byte_at(
                    samples@,
                    cnt,
                    k,
                ),
            decreases chunk.valid - j,
        {
            let s = chunk.samples[j];
            let w: u16 = s as u16;
            bytes.push((w % 256) as u8);
            bytes.push((w / 256) as u8);
            proof {
                assert(2 * j as int % 2 == 0);
                assert(2 * j as int / 2 == j as int);
                assert((2 * j as int + 1) % 2 == 1);
                assert((2 * j as int + 1) / 2 == j as int);
            }
            j += 1;
        }
        RawChunk { bytes, valid_samples: chunk.valid }
    }
}

} // verus!
