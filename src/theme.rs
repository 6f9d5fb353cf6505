use vstd::prelude::*;

verus! {

/// Flags for drawing a theme background.
#[derive(PartialEq, Eq, Structural, Clone, Copy, Debug)]
pub enum ThemeDrawBackgroundFlag {
    /// Give back the client area.
    AdjustRect,
}

impl ThemeDrawBackgroundFlag {
    /// The bit of each variant.
    pub open spec fn spec_bits(&self) -> u32 {
        match self {
            ThemeDrawBackgroundFlag::AdjustRect => 0x0000_0001,
        }
    }

    /// The bit the host uses for this variant.
    #[verifier::when_used_as_spec(spec_bits)]
    pub fn bits(&self) -> (r: u32)
        ensures
            r == self.spec_bits(),
    {
        match self {
            ThemeDrawBackgroundFlag::AdjustRect => 0x0000_0001,
        }
    }
}
} // verus!
