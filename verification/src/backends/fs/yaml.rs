//! A transcoder for YAML.
use vstd::prelude::*;

use super::Transcoder;

verus! {

/// A transcoder for the YAML format.
#[derive(Debug, Default, Clone, Copy)]
pub struct YamlTranscoder;

impl YamlTranscoder {
    /// Creates a new [`YamlTranscoder`].
    pub fn new() -> (r: Self) {
        YamlTranscoder
    }
}

impl Transcoder for YamlTranscoder {
    open spec fn spec_extension(&self) -> Seq<char> {
        "yaml"@
    }

    fn extension(&self) -> (r: &'static str) {
        proof {
            reveal_strlit("yaml");
        }
        "yaml"
    }
}

} // verus!
