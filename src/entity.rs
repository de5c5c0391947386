use vstd::prelude::*;

verus! {

/// An entity of the host scene, identified by its 64-bit id.
#[derive(Clone, Copy, Debug, PartialEq, Eq, Structural)]
pub struct Entity {
    pub bits: u64,
}

impl Entity {
    pub fn from_bits(bits: u64) -> (r: Entity)
        ensures
            r.bits == bits,
    {
        Entity { bits }
    }
}

} // verus!
