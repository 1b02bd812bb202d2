//! Video codecs.

use vstd::prelude::*;

verus! {

/// The video codec families a release name can announce.
#[derive(Debug, Clone, Copy, PartialEq, Eq, Structural)]
pub enum Codec {
    Avc,
    Hevc,
    Xvid,
    Mpeg,
    Av1,
}

impl Codec {
    /// The canonical lower-case name.
    pub open spec fn name(self) -> Seq<char> {
        match self {
            Codec::Avc => "avc"@,
            Codec::Hevc => "hevc"@,
            Codec::Xvid => "xvid"@,
            Codec::Mpeg => "mpeg"@,
            Codec::Av1 => "av1"@,
        }
    }

    /// The canonical lower-case name.
    pub fn as_str(&self) -> (r: &'static str)
        ensures
            r@ == self.name(),
    {
        match self {
            Codec::Avc => "avc",
            Codec::Hevc => "hevc",
            Codec::Xvid => "xvid",
            Codec::Mpeg => "mpeg",
            Codec::Av1 => "av1",
        }
    }
}

} // verus!
