//! A transcoder for binary formats.
use vstd::prelude::*;

use super::Transcoder;

verus! {

/// Format types for the [`BinaryTranscoder`].
#[derive(Debug, Clone, Copy, PartialEq, Eq, Structural)]
pub enum BinaryFormat {
    /// The bincode format.
    Bincode,
    /// The CBOR format.
    Cbor,
}

/// A transcoder for multiple binary formats.
#[derive(Debug, Clone, Copy)]
pub struct BinaryTranscoder(BinaryFormat);

impl BinaryTranscoder {
    /// The format the transcoder uses.
    pub closed spec fn spec_format(self) -> BinaryFormat {
        self.0
    }

    /// Creates a new [`BinaryTranscoder`].
    pub fn new(format: BinaryFormat) -> (r: Self)
        ensures
            r.spec_format() == format,
    {
        BinaryTranscoder(format)
    }

    /// Returns the binary format being used by the transcoder.
    pub fn format(self) -> (r: BinaryFormat)
        ensures
            r == self.spec_format(),
    {
        self.0
    }

    /// Checks whether the transcoder uses the bincode format.
    pub fn is_bincode(self) -> (r: bool)
        ensures
            r == (self.spec_format() == BinaryFormat::Bincode),
    {
        matches!(self.format(), BinaryFormat::Bincode)
    }

    /// Checks whether the transcoder uses the CBOR format.
    pub fn is_cbor(self) -> (r: bool)
        ensures
            r == (self.spec_format() == BinaryFormat::Cbor),
    {
        matches!(self.format(), BinaryFormat::Cbor)
    }
}

impl Transcoder for BinaryTranscoder {
    open spec fn spec_extension(&self) -> Seq<char> {
        "bin"@
    }

    fn extension(&self) -> (r: &'static str) {
        proof {
            reveal_strlit("bin");
        }
        "bin"
    }
}

} // verus!
