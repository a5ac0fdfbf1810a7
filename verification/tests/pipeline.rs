use speech_encoder::{
    AudioEncoder, Application, Channels, ConfigError, CycleAction, EncodeError, EncoderConfig,
    EncoderType, OpusEncoder, PcmEncoder, SynthesisConditions,
};

fn conditions(f: u32, p: u32) -> SynthesisConditions {
    SynthesisConditions {
        sampling_frequency: f,
        synthesis_period: p,
    }
}

fn raw_config(chunk_size: Option<u32>, channels: Option<Channels>) -> EncoderConfig {
    EncoderConfig {
        encoder_type: EncoderType::Raw,
        channels,
        mode: None,
        chunk_size,
    }
}

fn opus_config(chunk_size: Option<u32>, channels: Option<Channels>) -> EncoderConfig {
    EncoderConfig {
        encoder_type: EncoderType::Opus,
        channels,
        mode: Some(Application::Voip),
        chunk_size,
    }
}

#[test]
fn chunk_size_derivation_48k() {
    // 48000 Hz / 240 samples per step = 200 steps per second;
    // 200 * 20 / 1000 = 4 synthesis periods per chunk.
    let e = OpusEncoder::new(&conditions(48000, 240), &opus_config(None, Some(Channels::Mono)))
        .unwrap();
    assert_eq!(e.pcm_encoder.chunk_size, 4);
    assert_eq!(e.pcm_encoder.period, 240);
    assert_eq!(e.pcm_encoder.chunk_capacity(), 960);
    assert_eq!(e.max_output_len(), 960);
}

#[test]
fn chunk_size_derivation_other_rates() {
    let e = OpusEncoder::new(&conditions(16000, 80), &opus_config(None, None)).unwrap();
    assert_eq!(e.pcm_encoder.chunk_size, 4);
    let e = OpusEncoder::new(&conditions(8000, 80), &opus_config(None, None)).unwrap();
    assert_eq!(e.pcm_encoder.chunk_size, 2);
    let e = OpusEncoder::new(&conditions(24000, 300), &opus_config(None, None)).unwrap();
    assert_eq!(e.pcm_encoder.chunk_size, 1);
}

#[test]
fn identical_configurations_derive_identical_chunks() {
    let a = AudioEncoder::new(&conditions(48000, 240), &opus_config(None, Some(Channels::Stereo)))
        .unwrap();
    let b = AudioEncoder::new(&conditions(48000, 240), &opus_config(None, Some(Channels::Stereo)))
        .unwrap();
    assert_eq!(a.chunk_capacity(), b.chunk_capacity());
    let a = AudioEncoder::new(&conditions(16000, 80), &raw_config(Some(7), None)).unwrap();
    let b = AudioEncoder::new(&conditions(16000, 80), &raw_config(Some(7), None)).unwrap();
    assert_eq!(a.chunk_capacity(), b.chunk_capacity());
    assert_eq!(a.chunk_capacity(), 7 * 80);
}

#[test]
fn unsupported_sampling_frequency_is_rejected() {
    let r = PcmEncoder::new(&conditions(44100, 240), &raw_config(Some(1), None));
    assert!(matches!(r, Err(ConfigError::UnsupportedSamplingFrequency)));
    let r = OpusEncoder::new(&conditions(44100, 240), &opus_config(None, None));
    assert!(matches!(r, Err(ConfigError::UnsupportedSamplingFrequency)));
    let r = AudioEncoder::new(&conditions(11025, 240), &opus_config(None, None));
    assert!(matches!(r, Err(ConfigError::UnsupportedSamplingFrequency)));
}

#[test]
fn zero_synthesis_period_is_rejected() {
    let r = PcmEncoder::new(&conditions(48000, 0), &raw_config(Some(1), None));
    assert!(matches!(r, Err(ConfigError::InvalidSynthesisPeriod)));
    let r = OpusEncoder::new(&conditions(48000, 0), &opus_config(None, None));
    assert!(matches!(r, Err(ConfigError::InvalidSynthesisPeriod)));
}

#[test]
fn zero_chunk_size_is_rejected() {
    let r = PcmEncoder::new(&conditions(48000, 240), &raw_config(Some(0), None));
    assert!(matches!(r, Err(ConfigError::InvalidChunkSize)));
    // 8000 Hz with a period of 8000 gives one step per second, and one
    // step covers far more than a frame: the derived chunk size is zero.
    let r = OpusEncoder::new(&conditions(8000, 8000), &opus_config(None, None));
    assert!(matches!(r, Err(ConfigError::InvalidChunkSize)));
}

#[test]
fn oversized_buffer_is_rejected() {
    let r = PcmEncoder::new(&conditions(48000, 240), &raw_config(Some(20_000_000), None));
    assert!(matches!(r, Err(ConfigError::InvalidChunkSize)));
    // Just over the limit once the stereo channel count doubles it.
    let r = PcmEncoder::new(
        &conditions(48000, 1),
        &raw_config(Some(16777216), Some(Channels::Stereo)),
    );
    assert!(matches!(r, Err(ConfigError::InvalidChunkSize)));
    // The same per-channel size fits in mono.
    let r = PcmEncoder::new(
        &conditions(48000, 1),
        &raw_config(Some(16777216), Some(Channels::Mono)),
    );
    assert!(r.is_ok());
}

#[test]
fn explicit_chunk_size_must_match_codec_framing() {
    let r = OpusEncoder::new(&conditions(48000, 240), &opus_config(Some(5), None));
    assert!(matches!(r, Err(ConfigError::ChunkSizeMismatch)));
    let r = OpusEncoder::new(&conditions(48000, 240), &opus_config(Some(4), None));
    assert!(r.is_ok());
}

#[test]
fn saturation_maps_full_scale_to_16_bit_bounds() {
    // A nominal +1.0 sample, scaled to the fixed-point domain, lands on the
    // positive 16-bit bound; -1.0 lands on the negative bound. Neither wraps.
    let positive = (1.0f64 * 32768.0) as i64;
    assert_eq!(speech_encoder::pcm::saturate_sample(positive), 32767);
    let negative = (-1.0f64 * 32768.0) as i64;
    assert_eq!(speech_encoder::pcm::saturate_sample(negative), -32768);
    let half = (0.5f64 * 32768.0) as i64;
    assert_eq!(speech_encoder::pcm::saturate_sample(half), 16384);
    assert_eq!(speech_encoder::pcm::saturate_sample(123456), 32767);
    assert_eq!(speech_encoder::pcm::saturate_sample(-123456), -32768);
    assert_eq!(speech_encoder::pcm::saturate_sample(-5), -5);
}

#[test]
fn raw_full_chunk_has_exact_byte_length() {
    let e = PcmEncoder::new(&conditions(48000, 240), &raw_config(None, Some(Channels::Mono)))
        .unwrap();
    let capacity = e.chunk_capacity();
    assert_eq!(capacity, 960);
    let samples: Vec<i64> = (0..capacity as i64).collect();
    let out = e.generate(&samples);
    // ChunkSize (in samples) x Channels x 2 bytes.
    assert_eq!(out.valid_samples, 960);
    assert_eq!(out.bytes.len(), 960 * 1 * 2);
}

#[test]
fn raw_bytes_are_little_endian() {
    let e = PcmEncoder::new(&conditions(48000, 240), &raw_config(None, Some(Channels::Mono)))
        .unwrap();
    let samples: Vec<i64> = vec![0x1234, -2];
    let out = e.generate(&samples);
    assert_eq!(out.valid_samples, 2);
    assert_eq!(out.bytes, vec![0x34, 0x12, 0xFE, 0xFF]);
}

#[test]
fn raw_short_final_chunk_reports_true_count() {
    let e = PcmEncoder::new(&conditions(48000, 240), &raw_config(None, Some(Channels::Stereo)))
        .unwrap();
    // The generator ran short: three samples against a capacity of 960.
    let samples: Vec<i64> = vec![100, -200, 300];
    let out = e.generate(&samples);
    assert_eq!(out.valid_samples, 6);
    assert_eq!(out.bytes.len(), 12);
    // Stereo interleaving duplicates each sample onto both channels.
    assert_eq!(out.bytes[0..2], out.bytes[2..4]);
    assert_eq!(out.bytes[4..6], out.bytes[6..8]);
    assert_eq!(i16::from_le_bytes([out.bytes[0], out.bytes[1]]), 100);
    assert_eq!(i16::from_le_bytes([out.bytes[4], out.bytes[5]]), -200);
}

#[test]
fn short_cycle_pads_pcm_frame_with_silence() {
    let e = OpusEncoder::new(&conditions(48000, 240), &opus_config(None, Some(Channels::Stereo)))
        .unwrap();
    let samples: Vec<i64> = vec![1000, -1000, 40000];
    let frame = e.prepare_frame(&samples);
    // The frame keeps its full capacity for the codec; the true generated
    // count is reported separately.
    assert_eq!(frame.samples.len(), 1920);
    assert_eq!(frame.valid, 6);
    assert_eq!(&frame.samples[0..6], &[1000, 1000, -1000, -1000, 32767, 32767]);
    assert!(frame.samples[6..].iter().all(|&s| s == 0));
}

#[test]
fn finish_frame_trims_to_reported_length() {
    let e = OpusEncoder::new(&conditions(48000, 240), &opus_config(None, Some(Channels::Mono)))
        .unwrap();
    let mut buffer = e.working_buffer();
    assert_eq!(buffer.len(), 960);
    assert!(buffer.iter().all(|&b| b == 0));
    for (i, b) in buffer.iter_mut().enumerate() {
        *b = (i % 251) as u8;
    }
    let out = e.finish_frame(&buffer, 37).unwrap();
    assert_eq!(out.len(), 37);
    assert_eq!(out[..], buffer[..37]);
    let out = e.finish_frame(&buffer, 0).unwrap();
    assert_eq!(out.len(), 0);
}

#[test]
fn finish_frame_rejects_overlong_reports() {
    let e = OpusEncoder::new(&conditions(48000, 240), &opus_config(None, Some(Channels::Mono)))
        .unwrap();
    let buffer = e.working_buffer();
    // A report beyond the buffer, or beyond the theoretical maximum frame
    // size, is a codec failure, never silently truncated.
    assert!(matches!(e.finish_frame(&buffer, 961), Err(EncodeError::Codec)));
    let long = vec![0u8; 4096];
    assert!(matches!(e.finish_frame(&long, 2000), Err(EncodeError::Codec)));
    assert!(e.finish_frame(&long, 960).is_ok());
}

#[test]
fn facade_dispatches_on_output_type() {
    let raw = AudioEncoder::new(&conditions(48000, 240), &raw_config(None, Some(Channels::Mono)))
        .unwrap();
    let samples: Vec<i64> = vec![1, 2, 3];
    match raw.begin_cycle(&samples) {
        CycleAction::Emit(out) => {
            assert_eq!(out.valid_samples, 3);
            assert_eq!(out.bytes.len(), 6);
        }
        CycleAction::EncodeFrame(_) => panic!("raw backend must finish its cycle directly"),
    }
    let opus = AudioEncoder::new(&conditions(48000, 240), &opus_config(None, Some(Channels::Mono)))
        .unwrap();
    match opus.begin_cycle(&samples) {
        CycleAction::Emit(_) => panic!("compressed backend must ask for the codec"),
        CycleAction::EncodeFrame(frame) => {
            assert_eq!(frame.samples.len(), 960);
            assert_eq!(frame.valid, 3);
        }
    }
}

#[test]
fn facade_finish_cycle_bounds_compressed_output() {
    let opus = AudioEncoder::new(&conditions(48000, 240), &opus_config(None, Some(Channels::Mono)))
        .unwrap();
    let buffer = vec![7u8; 960];
    let out = opus.finish_cycle(&buffer, 12).unwrap();
    assert_eq!(out, vec![7u8; 12]);
    assert!(out.len() <= 960);
    assert!(matches!(
        opus.finish_cycle(&buffer, 1000),
        Err(EncodeError::Codec)
    ));
}
