use vstd::prelude::*;

verus! {

/// A status item to draw.
#[derive(PartialEq, Eq, Structural, Clone, Copy, Debug)]
pub struct StatusItemDrawInfo;

/// A notification for a status item.
#[derive(PartialEq, Eq, Structural, Clone, Copy, Debug)]
pub struct StatusItemEventInfo;

/// A mouse action on a status item.
#[derive(PartialEq, Eq, Structural, Clone, Copy, Debug)]
pub struct StatusItemMouseEventInfo;

/// Flags of a status item.
#[derive(PartialEq, Eq, Structural, Clone, Copy, Debug)]
pub enum StatusItemFlag {
    /// Update it periodically.
    TimerUpdate,
}

impl StatusItemFlag {
    /// The bit of each variant.
    pub open spec fn spec_bits(&self) -> u32 {
        match self {
            StatusItemFlag::TimerUpdate => 0x0000_0001,
        }
    }

    /// The bit the host uses for this variant.
    #[verifier::when_used_as_spec(spec_bits)]
    pub fn bits(&self) -> (r: u32)
        ensures
            r == self.spec_bits(),
    {
        match self {
            StatusItemFlag::TimerUpdate => 0x0000_0001,
        }
    }
}
/// Style flags of a status item.
#[derive(PartialEq, Eq, Structural, Clone, Copy, Debug)]
pub enum StatusItemStyle {
    /// Variable width.
    VariableWidth,
    /// A row of its own where space allows.
    FullRow,
    /// Always a row of its own.
    ForceFullRow,
}

impl StatusItemStyle {
    /// The bit of each variant.
    pub open spec fn spec_bits(&self) -> u32 {
        match self {
            StatusItemStyle::VariableWidth => 0x0000_0001,
            StatusItemStyle::FullRow => 0x0000_0002,
            StatusItemStyle::ForceFullRow => 0x0000_0004,
        }
    }

    /// The bit the host uses for this variant.
    #[verifier::when_used_as_spec(spec_bits)]
    pub fn bits(&self) -> (r: u32)
        ensures
            r == self.spec_bits(),
    {
        match self {
            StatusItemStyle::VariableWidth => 0x0000_0001,
            StatusItemStyle::FullRow => 0x0000_0002,
            StatusItemStyle::ForceFullRow => 0x0000_0004,
        }
    }
}
} // verus!
