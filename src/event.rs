use vstd::prelude::*;

verus! {

/// A key press, reduced to what the selection logic reacts to.
#[derive(Clone, Copy, Debug, PartialEq, Eq, Structural)]
pub enum Key {
    Up,
    Down,
    Enter,
    Quit,
    Other,
}

} // verus!
