use vstd::prelude::*;

verus! {

/// Flags for closing the host window.
#[derive(PartialEq, Eq, Structural, Clone, Copy, Debug)]
pub enum CloseFlag {
    /// Close whatever happens.
    ForceClose,
}

impl CloseFlag {
    /// The bit of each variant.
    pub open spec fn spec_bits(&self) -> u32 {
        match self {
            CloseFlag::ForceClose => 0x0000_0001,
        }
    }

    /// The bit the host uses for this variant.
    #[verifier::when_used_as_spec(spec_bits)]
    pub fn bits(&self) -> (r: u32)
        ensures
            r == self.spec_bits(),
    {
        match self {
            CloseFlag::ForceClose => 0x0000_0001,
        }
    }
}
} // verus!
