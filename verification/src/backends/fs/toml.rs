//! A transcoder for TOML.
use vstd::prelude::*;

use super::Transcoder;

verus! {

/// A transcoder for the TOML format.
#[derive(Debug, Clone, Copy)]
pub struct TomlTranscoder(bool);

impl TomlTranscoder {
    /// Whether the transcoder writes with pretty formatting.
    pub closed spec fn spec_is_pretty(self) -> bool {
        self.0
    }

    /// Creates a new [`TomlTranscoder`], optionally using pretty printing.
    pub fn new(is_pretty: bool) -> (r: Self)
        ensures
            r.spec_is_pretty() == is_pretty,
    {
        TomlTranscoder(is_pretty)
    }

    /// Returns whether or not this transcoder uses pretty formatting.
    pub fn is_pretty(self) -> (r: bool)
        ensures
            r == self.spec_is_pretty(),
    {
        self.0
    }
}

impl Default for TomlTranscoder {
    fn default() -> (r: Self)
        ensures
            !r.spec_is_pretty(),
    {
        TomlTranscoder(false)
    }
}

impl Transcoder for TomlTranscoder {
    open spec fn spec_extension(&self) -> Seq<char> {
        "toml"@
    }

    fn extension(&self) -> (r: &'static str) {
        proof {
            reveal_strlit("toml");
        }
        "toml"
    }
}

} // verus!
