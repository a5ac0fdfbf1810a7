//! Configuration records, error taxonomy and the chunk-size arithmetic that
//! reconciles the synthesis engine's internal period with the codec's frame
//! duration.

use vstd::prelude::*;

verus! {

/// Frame duration, in milliseconds, that the compressed backend feeds to the
/// codec per encode call.
pub const FRAME_DURATION_MS: u64 = 20;

/// Upper bound on the number of 16-bit samples a single chunk buffer may
/// hold, so that every buffer length fits comfortably in `usize`.
pub const MAX_SPEECH_SAMPLES: u64 = 16777216;

/// Fixed, read-only properties of the active synthesis session: the sampling
/// frequency in Hz and the number of samples produced per synthesis step.
#[derive(Clone, Copy, PartialEq, Eq, Structural, Debug)]
pub struct SynthesisConditions {
    pub sampling_frequency: u32,
    pub synthesis_period: u32,
}

/// Channel layout of the produced audio. A mono source sample is duplicated
/// onto both channels when the layout is stereo.
#[derive(Clone, Copy, PartialEq, Eq, Structural, Debug)]
pub enum Channels {
    Mono,
    Stereo,
}

impl Channels {
    /// Number of interleaved channels in the output.
    pub open spec fn spec_count(self) -> int {
        match self {
            Channels::Mono => 1,
            Channels::Stereo => 2,
        }
    }

    pub fn count(&self) -> (n: usize)
        ensures
            n == self.spec_count(),
    {
        match self {
            Channels::Mono => 1,
            Channels::Stereo => 2,
        }
    }
}

/// Tuning profile of the compressed backend.
#[derive(Clone, Copy, PartialEq, Eq, Structural, Debug)]
pub enum Application {
    /// Voice-optimized: favours intelligibility of speech.
    Voip,
    /// General audio: favours fidelity to the input signal.
    Audio,
    /// Lowest achievable latency.
    LowDelay,
}

/// Which backend the facade selects at construction.
#[derive(Clone, Copy, PartialEq, Eq, Structural, Debug)]
pub enum EncoderType {
    Raw,
    Opus,
}

/// Caller-supplied configuration, consumed once at construction.
#[derive(Clone, Copy, Debug)]
pub struct EncoderConfig {
    pub encoder_type: EncoderType,
    /// Channel layout; `None` defaults to stereo.
    pub channels: Option<Channels>,
    /// Codec tuning; `None` defaults to voice-optimized. Compressed only.
    pub mode: Option<Application>,
    /// Explicit chunk size override, in synthesis periods per encode call.
    /// For the compressed backend it must match the derived value.
    pub chunk_size: Option<u32>,
}

/// Fatal configuration errors, raised at construction and never retried.
#[derive(Clone, Copy, PartialEq, Eq, Structural, Debug)]
pub enum ConfigError {
    /// The sampling frequency is not one of the codec's discrete rates.
    UnsupportedSamplingFrequency,
    /// The synthesis period is zero.
    InvalidSynthesisPeriod,
    /// The chunk size is zero or yields a buffer over the supported maximum.
    InvalidChunkSize,
    /// An explicit chunk size disagrees with the codec's framing requirement.
    ChunkSizeMismatch,
}

/// Errors raised by a single `generate` cycle and surfaced to the caller.
#[derive(Clone, Copy, PartialEq, Eq, Structural, Debug)]
pub enum EncodeError {
    /// The codec reported a failure while compressing one frame.
    Codec,
}

/// The discrete sampling rates the codec accepts; any other rate is a
/// construction-time configuration error.
pub open spec fn supported_sampling_frequency(f: u32) -> bool {
    f == 8000 || f == 12000 || f == 16000 || f == 24000 || f == 48000
}

/// Synthesis steps per second of audio.
pub open spec fn spec_synthesis_per_second(f: u32, p: u32) -> int {
    f as int / p as int
}

/// Chunk size, in synthesis periods per encode call: the number of synthesis
/// steps whose samples together cover (at most) one codec frame duration.
pub open spec fn spec_chunk_size(f: u32, p: u32) -> int {
    spec_synthesis_per_second(f, p) * (FRAME_DURATION_MS as int) / 1000
}

/// Channel layout after defaults are resolved.
pub open spec fn resolved_channels(config: EncoderConfig) -> Channels {
    match config.channels {
        Some(c) => c,
        None => Channels::Stereo,
    }
}

/// Tuning profile after defaults are resolved.
pub open spec fn resolved_mode(config: EncoderConfig) -> Application {
    match config.mode {
        Some(m) => m,
        None => Application::Voip,
    }
}

/// Derives the chunk size from the session conditions: synthesis steps per
/// second, scaled by the codec frame duration.
pub fn derive_chunk_size(conditions: &SynthesisConditions) -> (c: u32)
    requires
        conditions.synthesis_period > 0,
    ensures
        c == spec_chunk_size(conditions.sampling_frequency, conditions.synthesis_period),
{
    let steps: u32 = conditions.sampling_frequency / conditions.synthesis_period;
    let scaled: u64 = (steps as u64) * FRAME_DURATION_MS / 1000;
    proof {
        assert(scaled <= steps) by (nonlinear_arith)
            requires
                scaled == (steps as u64) * 20 / 1000,
        ;
    }
    scaled as u32
}

/// The derivation is a pure function of the synthesis conditions: identical
/// conditions always yield identical chunk sizes, so two encoder instances
/// built from the same configuration agree on their framing.
pub proof fn lemma_chunk_size_deterministic(a: SynthesisConditions, b: SynthesisConditions)
    requires
        a.sampling_frequency == b.sampling_frequency,
        a.synthesis_period == b.synthesis_period,
    ensures
        spec_chunk_size(a.sampling_frequency, a.synthesis_period)
            == spec_chunk_size(b.sampling_frequency, b.synthesis_period),
{
}

/// The audio covered by one derived chunk lasts at most the codec frame
/// duration, and falls short of it by less than one synthesis period: the
/// derived chunk size is the best integer approximation of the frame
/// duration from below. Durations are compared with both sides scaled by
/// `1000 * f`, so the clauses read: `chunk · p / f` seconds is at most
/// `FRAME_DURATION_MS / 1000` seconds, and adding one more period passes it.
pub proof fn lemma_chunk_duration_near_frame(f: u32, p: u32)
    requires
        p > 0,
    ensures
        1000 * spec_chunk_size(f, p) * p <= FRAME_DURATION_MS * f,
        FRAME_DURATION_MS * f < 1000 * (spec_chunk_size(f, p) + 1) * p,
{
    let s = f as int / p as int;
    let r1 = f as int % p as int;
    let q = s * 20;
    let c = q / 1000;
    let r2 = q % 1000;
    vstd::arithmetic::div_mod::lemma_fundamental_div_mod(f as int, p as int);
    vstd::arithmetic::div_mod::lemma_mod_bound(f as int, p as int);
    vstd::arithmetic::div_mod::lemma_fundamental_div_mod(q, 1000);
    vstd::arithmetic::div_mod::lemma_mod_bound(q, 1000);
    assert(f as int / p as int >= 0) by (nonlinear_arith)
        requires
            f >= 0,
            p > 0,
    ;
    assert(s * 20 >= 0) by (nonlinear_arith)
        requires
            s >= 0,
    ;
    // The remainder of `20 s` modulo 1000 is itself a multiple of 20, so it
    // is at most 980.
    let k = s - 50 * c;
    assert(r2 == 20 * k);
    assert(k <= 49);
    assert(r2 <= 980);
    // 20 f = 1000 c p + r2 p + 20 r1, and 0 <= r2 p + 20 r1 < 1000 p.
    assert(20 * (f as int) == 1000 * c * p + r2 * p + 20 * r1) by (nonlinear_arith)
        requires
            f as int == (p as int) * s + r1,
            s * 20 == 1000 * c + r2,
    ;
    assert(r2 * p + 20 * r1 >= 0) by (nonlinear_arith)
        requires
            r2 >= 0,
            r1 >= 0,
            p > 0,
    ;
    assert(r2 * p + 20 * r1 < 1000 * p) by (nonlinear_arith)
        requires
            r2 <= 980,
            r1 < p as int,
            p > 0,
    ;
    assert(1000 * (c + 1) * p == 1000 * c * p + 1000 * p) by (nonlinear_arith);
    assert(1000 * c * p == 1000 * spec_chunk_size(f, p) * p) by (nonlinear_arith)
        requires
            c == spec_chunk_size(f, p),
    ;
}

} // verus!
