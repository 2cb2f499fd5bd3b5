//! The transcoders for the [`FsBackend`](super::FsBackend).
use vstd::prelude::*;

pub use super::binary::{BinaryFormat, BinaryTranscoder};
pub use super::json::JsonTranscoder;
pub use super::toml::TomlTranscoder;
pub use super::yaml::YamlTranscoder;

verus! {

/// Transcoder formats for supported transcoders to use.
#[derive(Debug, Clone, Copy, PartialEq, Eq, Structural)]
pub enum TranscoderFormat {
    /// Standard formatting, this is the default.
    Standard,
    /// Prettier formatting, this uses more file space but is also more human-readable.
    Pretty,
}

impl Default for TranscoderFormat {
    fn default() -> (r: Self)
        ensures
            r == TranscoderFormat::Standard,
    {
        TranscoderFormat::Standard
    }
}

} // verus!
