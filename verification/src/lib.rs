//! Audio encoding pipeline for synthesized speech.
//!
//! A synthesis engine hands over fixed-point samples one synthesis period at
//! a time; this library slices them into chunks, converts them to 16-bit PCM,
//! and either serialises them as raw little-endian bytes or pushes them
//! through the Opus codec, returning one encoded buffer per cycle.

pub mod config;
pub mod pcm;
pub mod opus;
pub mod encoder;

pub use config::{
    Application, Channels, ConfigError, EncodeError, EncoderConfig, EncoderType,
    SynthesisConditions,
};
pub use encoder::{AudioEncoder, CycleAction};
pub use opus::OpusEncoder;
pub use pcm::{PcmChunk, PcmEncoder, RawChunk};
