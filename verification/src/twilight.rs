//! Which atmospheric twilight colour defines the Isha angle.

use vstd::prelude::*;

verus! {

/// How the Isha prayer's twilight is read: Imam Abu Hanifa held that the
/// texts mean the white twilight, while the other schools, and his two
/// main students, read them as the red one.
#[derive(Clone, Copy, Debug, PartialEq, Eq, Structural)]
pub enum Twilight {
    White,
    Red,
}

impl Default for Twilight {
    /// The majority reading, red twilight.
    fn default() -> (r: Self)
        ensures
            r == Twilight::Red,
    {
        Twilight::Red
    }
}

} // verus!
