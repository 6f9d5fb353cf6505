use vstd::prelude::*;

verus! {

/// Whether silent mode is read or set.
#[derive(PartialEq, Eq, Structural, Clone, Copy, Debug)]
pub enum SilentMode {
    /// Read it.
    Get,
    /// Change it.
    Change,
}

impl SilentMode {
    /// The wire value of each variant.
    pub open spec fn spec_value(&self) -> isize {
        match self {
            SilentMode::Get => 0,
            SilentMode::Change => 1,
        }
    }

    /// The wire value the host uses for this variant.
    #[verifier::when_used_as_spec(spec_value)]
    pub fn value(&self) -> (r: isize)
        ensures
            r == self.spec_value(),
    {
        match self {
            SilentMode::Get => 0,
            SilentMode::Change => 1,
        }
    }

    /// The variant with a given wire value, if any.
    pub open spec fn spec_from_value(v: isize) -> Option<SilentMode> {
        if v == 0 {
            Some(SilentMode::Get)
        } else if v == 1 {
            Some(SilentMode::Change)
        } else {
            None
        }
    }

    /// Reads a variant from its wire value; a value that names none gives `None`.
    pub fn from_value(v: isize) -> (r: Option<SilentMode>)
        ensures
            r == Self::spec_from_value(v),
            r matches Some(e) ==> e.spec_value() == v,
    {
        if v == 0 {
            Some(SilentMode::Get)
        } else if v == 1 {
            Some(SilentMode::Change)
        } else {
            None
        }
    }
}
} // verus!
