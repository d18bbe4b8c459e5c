//! The color channels that wire activation sources to activation sinks.

use vstd::prelude::*;

verus! {

/// Identifier of a signaling channel. A source (crystal) asserts activation
/// on its channel; every sink (gate) of the same channel consumes it. The set
/// of channels is closed and small, and each channel has a stable ordinal in
/// `0..ColorCode::size()`, so a per-channel table can be indexed by it.
#[derive(Clone, Copy, Debug, PartialEq, Eq, Structural)]
pub enum ColorCode {
    Red,
    Green,
    Blue,
    Purple,
}

impl ColorCode {
    /// Number of distinct color channels.
    pub open spec fn spec_size() -> usize {
        4
    }

    /// Number of distinct color channels.
    pub fn size() -> (n: usize)
        ensures
            n == Self::spec_size(),
    {
        4
    }

    /// Stable ordinal of this channel.
    pub open spec fn spec_ordinal(self) -> usize {
        match self {
            ColorCode::Red => 0,
            ColorCode::Green => 1,
            ColorCode::Blue => 2,
            ColorCode::Purple => 3,
        }
    }

    /// Stable ordinal of this channel, always below `ColorCode::size()`.
    pub fn ordinal(self) -> (i: usize)
        ensures
            i == self.spec_ordinal(),
            i < Self::spec_size(),
    {
        match self {
            ColorCode::Red => 0,
            ColorCode::Green => 1,
            ColorCode::Blue => 2,
            ColorCode::Purple => 3,
        }
    }
}

/// Distinct channels have distinct ordinals, so a table indexed by ordinal
/// keeps the channels apart.
pub proof fn lemma_ordinal_injective(a: ColorCode, b: ColorCode)
    ensures
        a.spec_ordinal() == b.spec_ordinal() ==> a == b,
{
}

/// The channel used when an authored record does not name one.
impl Default for ColorCode {
    fn default() -> (c: Self)
        ensures
            c == ColorCode::Red,
    {
        ColorCode::Red
    }
}

} // verus!
