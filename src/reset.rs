use vstd::prelude::*;

verus! {

/// What a reset covers.
#[derive(PartialEq, Eq, Structural, Clone, Copy, Debug)]
pub enum ResetFlag {
    /// Everything.
    All,
    /// The viewer only.
    Viewer,
}

impl ResetFlag {
    /// The wire value of each variant.
    pub open spec fn spec_value(&self) -> isize {
        match self {
            ResetFlag::All => 0,
            ResetFlag::Viewer => 1,
        }
    }

    /// The wire value the host uses for this variant.
    #[verifier::when_used_as_spec(spec_value)]
    pub fn value(&self) -> (r: isize)
        ensures
            r == self.spec_value(),
    {
        match self {
            ResetFlag::All => 0,
            ResetFlag::Viewer => 1,
        }
    }

    /// The variant with a given wire value, if any.
    pub open spec fn spec_from_value(v: isize) -> Option<ResetFlag> {
        if v == 0 {
            Some(ResetFlag::All)
        } else if v == 1 {
            Some(ResetFlag::Viewer)
        } else {
            None
        }
    }

    /// Reads a variant from its wire value; a value that names none gives `None`.
    pub fn from_value(v: isize) -> (r: Option<ResetFlag>)
        ensures
            r == Self::spec_from_value(v),
            r matches Some(e) ==> e.spec_value() == v,
    {
        if v == 0 {
            Some(ResetFlag::All)
        } else if v == 1 {
            Some(ResetFlag::Viewer)
        } else {
            None
        }
    }
}
} // verus!
