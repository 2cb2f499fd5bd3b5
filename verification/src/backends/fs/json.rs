//! A transcoder for JSON.
use vstd::prelude::*;

use super::transcoders::TranscoderFormat;
use super::Transcoder;

verus! {

/// A transcoder for the JSON format.
#[derive(Debug, Clone, Copy)]
pub struct JsonTranscoder(TranscoderFormat);

impl JsonTranscoder {
    /// The formatting the transcoder writes with.
    pub closed spec fn spec_format(self) -> TranscoderFormat {
        self.0
    }

    /// Creates a new [`JsonTranscoder`], optionally using pretty printing.
    pub fn new(format: TranscoderFormat) -> (r: Self)
        ensures
            r.spec_format() == format,
    {
        JsonTranscoder(format)
    }

    /// Returns whether or not this transcoder uses pretty formatting.
    pub fn is_pretty(self) -> (r: bool)
        ensures
            r == (self.spec_format() == TranscoderFormat::Pretty),
    {
        matches!(self.0, TranscoderFormat::Pretty)
    }

    /// Returns whether or not this transcoder uses standard formatting.
    pub fn is_standard(self) -> (r: bool)
        ensures
            r == (self.spec_format() == TranscoderFormat::Standard),
    {
        !self.is_pretty()
    }

    /// A transcoder that uses pretty formatting.
    pub fn pretty() -> (r: Self)
        ensures
            r.spec_format() == TranscoderFormat::Pretty,
    {
        Self::new(TranscoderFormat::Pretty)
    }

    /// A transcoder that uses standard formatting.
    pub fn standard() -> (r: Self)
        ensures
            r.spec_format() == TranscoderFormat::Standard,
    {
        Self::new(TranscoderFormat::Standard)
    }
}

impl Default for JsonTranscoder {
    fn default() -> (r: Self)
        ensures
            r.spec_format() == TranscoderFormat::Standard,
    {
        Self::standard()
    }
}

impl Transcoder for JsonTranscoder {
    open spec fn spec_extension(&self) -> Seq<char> {
        "json"@
    }

    fn extension(&self) -> (r: &'static str) {
        proof {
            reveal_strlit("json");
        }
        "json"
    }
}

} // verus!
