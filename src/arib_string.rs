use vstd::prelude::*;

verus! {

/// Flags for decoding an ARIB string.
#[derive(PartialEq, Eq, Structural, Clone, Copy, Debug)]
pub enum AribStringDecodeFlag {
    /// No flag.
    Default,
}

impl AribStringDecodeFlag {
    /// The wire value of each variant.
    pub open spec fn spec_value(&self) -> u32 {
        match self {
            AribStringDecodeFlag::Default => 0,
        }
    }

    /// The wire value the host uses for this variant.
    #[verifier::when_used_as_spec(spec_value)]
    pub fn value(&self) -> (r: u32)
        ensures
            r == self.spec_value(),
    {
        match self {
            AribStringDecodeFlag::Default => 0,
        }
    }

    /// The variant with a given wire value, if any.
    pub open spec fn spec_from_value(v: u32) -> Option<AribStringDecodeFlag> {
        if v == 0 {
            Some(AribStringDecodeFlag::Default)
        } else {
            None
        }
    }

    /// Reads a variant from its wire value; a value that names none gives `None`.
    pub fn from_value(v: u32) -> (r: Option<AribStringDecodeFlag>)
        ensures
            r == Self::spec_from_value(v),
            r matches Some(e) ==> e.spec_value() == v,
    {
        if v == 0 {
            Some(AribStringDecodeFlag::Default)
        } else {
            None
        }
    }
}
} // verus!
