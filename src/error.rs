use vstd::prelude::*;

verus! {

/// One of the two trip arrays of a round-trip search.
#[derive(Clone, Copy, Debug, PartialEq, Eq, Structural)]
pub enum Side {
    Outward,
    Return,
}

/// Why a trip search response could not be turned into trips.
#[derive(Clone, Copy, Debug, PartialEq, Eq, Structural)]
pub enum Error {
    /// The array of this side is absent, or is not an array.
    MissingSection(Side),
    /// Some record of this side, and of this side only, could not be read.
    SideParseFailure(Side),
    /// Both sides hold a record that could not be read.
    BothSidesParseFailure,
}

} // verus!
