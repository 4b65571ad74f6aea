//! The jurisprudential school that fixes the afternoon shadow ratio.

use vstd::prelude::*;

verus! {

/// Setting for the Asr prayer time.
#[derive(Clone, Copy, Debug, PartialEq, Eq, Structural)]
pub enum Madhab {
    Shafi,
    Hanafi,
}

/// The shadow-length ratio of the school: one object length for Shafi,
/// two for Hanafi.
pub open spec fn shadow_length_ratio_spec(m: Madhab) -> int {
    match m {
        Madhab::Shafi => 1,
        Madhab::Hanafi => 2,
    }
}

impl Madhab {
    /// The shadow-length ratio that defines the school's Asr instant.
    pub fn shadow_length_ratio(&self) -> (r: i32)
        ensures
            r == shadow_length_ratio_spec(*self),
    {
        match self {
            Madhab::Shafi => 1,
            Madhab::Hanafi => 2,
        }
    }
}

impl Default for Madhab {
    /// Shafi is assumed where no school is named.
    fn default() -> (r: Self)
        ensures
            r == Madhab::Shafi,
    {
        Madhab::Shafi
    }
}

} // verus!
