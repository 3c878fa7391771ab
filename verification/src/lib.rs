//! Decoding support for single-channel PCM audio.
//!
//! The library holds the decision logic of an MP3-to-PCM decoding utility:
//! the configuration model, the downsampling ("precision") policy, the
//! clamping step of sample normalization, the packet-loop state machine and
//! the error taxonomy. Container probing, codec work and file access are
//! collaborators that a thin driver runs around this crate; every decision
//! they feed is made here, under contract.

mod config;
mod errors;
mod normalize;
mod precision;
mod sampling;
mod session;

pub use config::Decoder;
pub use config::DecoderConfig;
pub use errors::AudioError;
pub use normalize::clamp_to_i16;
pub use normalize::clamped_i16;
pub use precision::Precision;
pub use sampling::compress;
pub use sampling::decimate;
pub use sampling::lemma_decimate_identity;
pub use sampling::lemma_decimate_shape;
pub use session::DecodeSession;
pub use session::PacketOutcome;
