//! Encoder facade: selects a backend from the configuration at construction
//! and exposes one cycle of the pipeline as a small state machine. A cycle
//! begins with `begin_cycle`, which either finishes immediately (raw
//! backend) or hands out the PCM frame the external codec must compress;
//! the codec's outcome is then returned through `finish_cycle`.

use vstd::prelude::*;
use crate::config::{
    resolved_channels, ConfigError, EncodeError, EncoderConfig, EncoderType, SynthesisConditions,
};
use crate::config::spec_chunk_size;
use crate::opus::{opus_config_error, opus_config_ok, OpusEncoder};
use crate::pcm::{
    pcm_config_error, pcm_config_ok, raw_byte_at, requested_chunk_size, spec_saturate, PcmChunk,
    PcmEncoder, RawChunk,
};

verus! {

/// What one cycle asks of the caller after the verified half is done.
pub enum CycleAction {
    /// The raw backend finished the cycle: these are its output bytes.
    Emit(RawChunk),
    /// The compressed backend needs the external codec: this exactly-sized
    /// PCM frame must be compressed into a working buffer, and the outcome
    /// handed back through `finish_cycle`.
    EncodeFrame(PcmChunk),
}

/// The facade over the two backends. The mode is fixed at construction and
/// never changes for the lifetime of the instance.
pub enum AudioEncoder {
    Raw(PcmEncoder),
    Opus(OpusEncoder),
}

impl AudioEncoder {
    /// The PCM conversion stage of whichever backend is active.
    pub open spec fn stage(self) -> PcmEncoder {
        match self {
            AudioEncoder::Raw(p) => p,
            AudioEncoder::Opus(o) => o.pcm_encoder,
        }
    }

    /// Structural invariant of the active backend.
    pub open spec fn wf(self) -> bool {
        match self {
            AudioEncoder::Raw(p) => p.wf(),
            AudioEncoder::Opus(o) => o.wf(),
        }
    }

    /// Builds the backend the configuration selects, deriving the chunk
    /// size where the codec dictates it and validating everything at
    /// construction; each backend's acceptance condition and error
    /// reporting carry over unchanged.
    pub fn new(conditions: &SynthesisConditions, config: &EncoderConfig) -> (r: Result<
        AudioEncoder,
        ConfigError,
    >)
        ensures
            config.encoder_type == EncoderType::Raw ==> ({
                &&& (r is Ok <==> pcm_config_ok(*conditions, *config))
                &&& (r matches Ok(e) ==> e is Raw && e.stage().chunk_size
                    == requested_chunk_size(*conditions, *config))
                &&& (r matches Err(e) ==> pcm_config_error(*conditions, *config) == Some(e))
            }),
            config.encoder_type == EncoderType::Opus ==> ({
                &&& (r is Ok <==> opus_config_ok(*conditions, *config))
                &&& (r matches Ok(e) ==> e is Opus && e.stage().chunk_size == spec_chunk_size(
                    conditions.sampling_frequency,
                    conditions.synthesis_period,
                ))
                &&& (r matches Err(e) ==> opus_config_error(*conditions, *config) == Some(e))
            }),
            r matches Ok(e) ==> ({
                &&& e.wf()
                &&& e.stage().period == conditions.synthesis_period
                &&& e.stage().channels == resolved_channels(*config)
            }),
    {
        match config.encoder_type {
            EncoderType::Raw => {
                match PcmEncoder::new(conditions, config) {
                    Ok(p) => Ok(AudioEncoder::Raw(p)),
                    Err(e) => Err(e),
                }
            },
            EncoderType::Opus => {
                match OpusEncoder::new(conditions, config) {
                    Ok(o) => Ok(AudioEncoder::Opus(o)),
                    Err(e) => Err(e),
                }
            },
        }
    }

    /// Source samples the caller must pull from the generator per cycle.
    pub fn chunk_capacity(&self) -> (n: usize)
        requires
            self.wf(),
        ensures
            n == self.stage().samples_per_chunk(),
    {
        match self {
            AudioEncoder::Raw(p) => p.chunk_capacity(),
            AudioEncoder::Opus(o) => o.pcm_encoder.chunk_capacity(),
        }
    }

    /// Advances the pipeline by one cycle as far as verified code can: the
    /// raw backend completes and emits its trimmed bytes; the compressed
    /// backend hands out the padded, exactly-sized PCM frame for the codec.
    pub fn begin_cycle(&self, samples: &Vec<i64>) -> (a: CycleAction)
        requires
            self.wf(),
            samples@.len() <= self.stage().samples_per_chunk(),
        ensures
            (a is Emit <==> self is Raw),
            a matches CycleAction::Emit(raw) ==> ({
                &&& raw.valid_samples == samples@.len() * self.stage().channels.spec_count()
                &&& raw.bytes@.len() == 2 * raw.valid_samples
                &&& forall|j: int|
                    0 <= j < raw.bytes@.len() ==> raw.bytes@[j] == raw_byte_at(
                        samples@,
                        self.stage().channels.spec_count(),
                        j,
                    )
            }),
            a matches CycleAction::EncodeFrame(frame) ==> ({
                &&& frame.samples@.len() == self.stage().spec_speech_len()
                &&& frame.valid == samples@.len() * self.stage().channels.spec_count()
                &&& forall|j: int|
                    0 <= j < frame.valid ==> frame.samples@[j] == spec_saturate(
                        samples@[j / self.stage().channels.spec_count()],
                    )
                &&& forall|j: int|
                    frame.valid <= j < frame.samples@.len() ==> frame.samples@[j] == 0
            }),
    {
        match self {
            AudioEncoder::Raw(p) => CycleAction::Emit(p.generate(samples)),
            AudioEncoder::Opus(o) => CycleAction::EncodeFrame(o.prepare_frame(samples)),
        }
    }

    /// Completes a compressed cycle with the codec's outcome: the working
    /// buffer it filled and the byte length it reported. The emitted buffer
    /// is trimmed to exactly the reported length, which never exceeds the
    /// theoretical maximum frame size; an over-long report is a codec
    /// failure. Meaningful for the compressed backend only.
    pub fn finish_cycle(&self, buffer: &Vec<u8>, reported: usize) -> (r: Result<
        Vec<u8>,
        EncodeError,
    >)
        requires
            self.wf(),
            self is Opus,
        ensures
            r is Ok <==> (reported <= buffer@.len() && reported
                <= self.stage().spec_speech_len()),
            r matches Ok(out) ==> ({
                &&& out@ == buffer@.subrange(0, reported as int)
                &&& out@.len() <= self.stage().spec_speech_len()
            }),
    {
        match self {
            AudioEncoder::Raw(_) => Err(EncodeError::Codec),
            AudioEncoder::Opus(o) => o.finish_frame(buffer, reported),
        }
    }
}

} // verus!
