//! Compressed (Opus) backend. The codec itself is an external collaborator
//! that cannot be linked into the verified library, so one encode cycle is
//! split into two verified halves around the codec call: `prepare_frame`
//! assembles the exactly-sized PCM frame and the working buffer for the
//! codec to fill, and `finish_frame` checks the codec-reported length and
//! trims the working buffer to it. The caller performs the codec call in
//! between and hands its outcome back.

use vstd::prelude::*;
use crate::config::{
    resolved_channels, resolved_mode, supported_sampling_frequency, Application, Channels,
    ConfigError, EncodeError, EncoderConfig, EncoderType, SynthesisConditions,
    MAX_SPEECH_SAMPLES,
};
use crate::config::{derive_chunk_size, spec_chunk_size};
use crate::pcm::{PcmChunk, PcmEncoder, spec_saturate};

verus! {

/// Whether a compressed-backend configuration is accepted at construction:
/// a codec-supported sampling frequency, a positive synthesis period, a
/// derived chunk size that is positive and fits the supported buffer
/// maximum, and an explicit chunk size (if any) that matches the derived
/// one, since the codec dictates its own framing.
pub open spec fn opus_config_ok(conditions: SynthesisConditions, config: EncoderConfig) -> bool {
    &&& supported_sampling_frequency(conditions.sampling_frequency)
    &&& conditions.synthesis_period > 0
    &&& (config.chunk_size matches Some(c) ==> c == spec_chunk_size(
        conditions.sampling_frequency,
        conditions.synthesis_period,
    ))
    &&& spec_chunk_size(conditions.sampling_frequency, conditions.synthesis_period) > 0
    &&& spec_chunk_size(conditions.sampling_frequency, conditions.synthesis_period)
        * conditions.synthesis_period * resolved_channels(config).spec_count()
        <= MAX_SPEECH_SAMPLES
}

/// The error a rejected compressed-backend configuration is reported with;
/// `None` exactly when the configuration is accepted.
pub open spec fn opus_config_error(
    conditions: SynthesisConditions,
    config: EncoderConfig,
) -> Option<ConfigError> {
    if !supported_sampling_frequency(conditions.sampling_frequency) {
        Some(ConfigError::UnsupportedSamplingFrequency)
    } else if conditions.synthesis_period == 0 {
        Some(ConfigError::InvalidSynthesisPeriod)
    } else if !(config.chunk_size matches Some(c) ==> c == spec_chunk_size(
        conditions.sampling_frequency,
        conditions.synthesis_period,
    )) {
        Some(ConfigError::ChunkSizeMismatch)
    } else if spec_chunk_size(conditions.sampling_frequency, conditions.synthesis_period) == 0
        || spec_chunk_size(conditions.sampling_frequency, conditions.synthesis_period)
        * conditions.synthesis_period * resolved_channels(config).spec_count()
        > MAX_SPEECH_SAMPLES {
        Some(ConfigError::InvalidChunkSize)
    } else {
        None
    }
}

/// The compressed backend: a PCM stage sized to the codec's frame duration,
/// plus the codec-facing parameters resolved at construction.
pub struct OpusEncoder {
    pub pcm_encoder: PcmEncoder,
    pub mode: Application,
    pub sampling_frequency: u32,
}

impl OpusEncoder {
    /// Structural invariant: the inner PCM stage is well formed and the
    /// sampling frequency is one the codec supports.
    pub open spec fn wf(self) -> bool {
        &&& self.pcm_encoder.wf()
        &&& supported_sampling_frequency(self.sampling_frequency)
    }

    /// Upper bound, in bytes, on one compressed frame: the theoretical
    /// maximum the working buffer is sized to, equal to the byte length of
    /// the uncompressed frame itself.
    pub open spec fn spec_max_output(self) -> int {
        self.pcm_encoder.spec_speech_len()
    }

    /// Builds the compressed backend: validates the sampling frequency
    /// against the codec's discrete rates, derives the chunk size from the
    /// synthesis conditions, rejects an explicit chunk size that disagrees
    /// with it, and sizes the inner PCM stage accordingly.
    pub fn new(conditions: &SynthesisConditions, config: &EncoderConfig) -> (r: Result<
        OpusEncoder,
        ConfigError,
    >)
        ensures
            r is Ok <==> opus_config_ok(*conditions, *config),
            r is Ok ==> ({
                let e = r->Ok_0;
                &&& e.wf()
                &&& e.pcm_encoder.chunk_size == spec_chunk_size(
                    conditions.sampling_frequency,
                    conditions.synthesis_period,
                )
                &&& e.pcm_encoder.period == conditions.synthesis_period
                &&& e.pcm_encoder.channels == resolved_channels(*config)
                &&& e.mode == resolved_mode(*config)
                &&& e.sampling_frequency == conditions.sampling_frequency
            }),
            r matches Err(e) ==> opus_config_error(*conditions, *config) == Some(e),
    {
        let f = conditions.sampling_frequency;
        if !(f == 8000 || f == 12000 || f == 16000 || f == 24000 || f == 48000) {
            return Err(ConfigError::UnsupportedSamplingFrequency);
        }
        if conditions.synthesis_period == 0 {
            return Err(ConfigError::InvalidSynthesisPeriod);
        }
        let derived = derive_chunk_size(conditions);
        match config.chunk_size {
            Some(requested) => {
                if requested != derived {
                    return Err(ConfigError::ChunkSizeMismatch);
                }
            },
            None => {},
        }
        let channels = match config.channels {
            Some(c) => c,
            None => Channels::Stereo,
        };
        let mode = match config.mode {
            Some(m) => m,
            None => Application::Voip,
        };
        let pcm_config = EncoderConfig {
            encoder_type: EncoderType::Raw,
            channels: Some(channels),
            mode: None,
            chunk_size: Some(derived),
        };
        let pcm_encoder = match PcmEncoder::new(conditions, &pcm_config) {
            Ok(p) => p,
            Err(e) => {
                return Err(e);
            },
        };
        Ok(OpusEncoder { pcm_encoder, mode, sampling_frequency: f })
    }

    /// Length, in bytes, of the working buffer handed to the codec: the
    /// theoretical maximum size of one compressed frame under the
    /// configured parameters.
    pub fn max_output_len(&self) -> (n: usize)
        requires
            self.wf(),
        ensures
            n == self.spec_max_output(),
    {
        self.pcm_encoder.speech_len()
    }

    /// The PCM frame for one codec call: exactly one full chunk, converted
    /// and interleaved, with silence padding when the generator ran short.
    /// The codec requires an exactly-sized frame, so the buffer always has
    /// the full chunk capacity; `valid` reports the true generated count.
    pub fn prepare_frame(&self, samples: &Vec<i64>) -> (frame: PcmChunk)
        requires
            self.wf(),
            samples@.len() <= self.pcm_encoder.samples_per_chunk(),
        ensures
            frame.samples@.len() == self.pcm_encoder.spec_speech_len(),
            frame.valid == samples@.len() * self.pcm_encoder.channels.spec_count(),
            forall|j: int|
                0 <= j < frame.valid ==> frame.samples@[j] == spec_saturate(
                    samples@[j / self.pcm_encoder.channels.spec_count()],
                ),
            forall|j: int|
                frame.valid <= j < frame.samples@.len() ==> frame.samples@[j] == 0,
    {
        self.pcm_encoder.generate_i16(samples)
    }

    /// A zeroed working buffer of the codec's maximum frame size, for the
    /// codec to write one compressed frame into.
    pub fn working_buffer(&self) -> (buf: Vec<u8>)
        requires
            self.wf(),
        ensures
            buf@.len() == self.spec_max_output(),
            forall|j: int| 0 <= j < buf@.len() ==> buf@[j] == 0,
    {
        let n = self.max_output_len();
        let mut buf: Vec<u8> = Vec::new();
        while buf.len() < n
            invariant
                buf@.len() <= n,
                forall|j: int| 0 <= j < buf@.len() ==> buf@[j] == 0,
            decreases n - buf@.len(),
        {
            buf.push(0);
        }
        buf
    }

    /// Accepts the codec's outcome for one frame: the working buffer it
    /// wrote into and the byte length it reported. The result is the buffer
    /// trimmed to exactly that length — never the padded working buffer —
    /// and a report that exceeds the buffer or the theoretical maximum is
    /// rejected as a codec failure rather than truncated silently.
    pub fn finish_frame(&self, buffer: &Vec<u8>, reported: usize) -> (r: Result<
        Vec<u8>,
        EncodeError,
    >)
        requires
            self.wf(),
        ensures
            r is Ok <==> (reported <= buffer@.len() && reported <= self.spec_max_output()),
            r is Err <==> r == Err::<Vec<u8>, EncodeError>(EncodeError::Codec) && (reported
                > buffer@.len() || reported > self.spec_max_output()),
            r matches Ok(out) ==> ({
                &&& out@ == buffer@.subrange(0, reported as int)
                &&& out@.len() == reported
                &&& out@.len() <= self.spec_max_output()
            }),
    {
        if reported > buffer.len() {
            return Err(EncodeError::Codec);
        }
        if reported > self.max_output_len() {
            return Err(EncodeError::Codec);
        }
        let mut out: Vec<u8> = Vec::new();
        let mut i: usize = 0;
        while i < reported
            invariant
                i <= reported,
                reported <= buffer@.len(),
                out@.len() == i,
                forall|j: int| 0 <= j < i ==> out@[j] == buffer@[j],
            decreases reported - i,
        {
            out.push(buffer[i]);
            i += 1;
        }
        proof {
            assert(out@ =~= buffer@.subrange(0, reported as int));
        }
        Ok(out)
    }
}

} // verus!
