//! Block states, identified by their raw global palette id.

use vstd::prelude::*;

verus! {

/// A block state, carried as its raw id in the global block-state palette.
#[derive(Clone, Copy, PartialEq, Eq, Hash, Debug, Structural)]
pub struct BlockState(pub u16);

impl BlockState {
    /// The air block state, raw id 0.
    pub fn air() -> (r: BlockState)
        ensures
            r.0 == 0,
    {
        BlockState(0)
    }

    pub fn from_raw(v: u16) -> (r: Self)
        ensures
            r.0 == v,
    {
        Self(v)
    }

    pub fn raw(&self) -> (r: u16)
        ensures
            r == self.0,
    {
        self.0
    }

    /// Whether this is the air state (raw id 0).
    pub fn is_air(&self) -> (r: bool)
        ensures
            r == (self.0 == 0),
    {
        self.0 == 0
    }
}

/// Reading back the raw id of a state made from a raw id gives that id; the only air
/// state is the one with raw id 0.
pub proof fn law_raw_round_trip(v: u16)
    ensures
        BlockState(v).0 == v,
        (BlockState(v) == BlockState(0)) == (v == 0),
{
}

} // verus!
