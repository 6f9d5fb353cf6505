use vstd::prelude::*;
use crate::win32::FixedWideString;

verus! {

/// A tuning space name read from the host.
#[derive(Debug)]
pub struct GetTuningSpaceNameInfo {
    /// The length the host reported for the name.
    pub length: usize,
    /// The name.
    pub name: String,
}

/// The kind of a tuning space.
#[derive(PartialEq, Eq, Structural, Clone, Copy, Debug)]
pub enum TuningSpaceKind {
    /// Unknown.
    Unknown,
    /// Terrestrial digital.
    Terrestrial,
    /// BS.
    BS,
    /// 110-degree CS.
    CS110,
}

impl TuningSpaceKind {
    /// The wire value of each variant.
    pub open spec fn spec_value(&self) -> u32 {
        match self {
            TuningSpaceKind::Unknown => 0,
            TuningSpaceKind::Terrestrial => 1,
            TuningSpaceKind::BS => 2,
            TuningSpaceKind::CS110 => 3,
        }
    }

    /// The wire value the host uses for this variant.
    #[verifier::when_used_as_spec(spec_value)]
    pub fn value(&self) -> (r: u32)
        ensures
            r == self.spec_value(),
    {
        match self {
            TuningSpaceKind::Unknown => 0,
            TuningSpaceKind::Terrestrial => 1,
            TuningSpaceKind::BS => 2,
            TuningSpaceKind::CS110 => 3,
        }
    }

    /// The variant with a given wire value, if any.
    pub open spec fn spec_from_value(v: u32) -> Option<TuningSpaceKind> {
        if v == 0 {
            Some(TuningSpaceKind::Unknown)
        } else if v == 1 {
            Some(TuningSpaceKind::Terrestrial)
        } else if v == 2 {
            Some(TuningSpaceKind::BS)
        } else if v == 3 {
            Some(TuningSpaceKind::CS110)
        } else {
            None
        }
    }

    /// Reads a variant from its wire value; a value that names none gives `None`.
    pub fn from_value(v: u32) -> (r: Option<TuningSpaceKind>)
        ensures
            r == Self::spec_from_value(v),
            r matches Some(e) ==> e.spec_value() == v,
    {
        if v == 0 {
            Some(TuningSpaceKind::Unknown)
        } else if v == 1 {
            Some(TuningSpaceKind::Terrestrial)
        } else if v == 2 {
            Some(TuningSpaceKind::BS)
        } else if v == 3 {
            Some(TuningSpaceKind::CS110)
        } else {
            None
        }
    }
}
/// A tuning space.
#[derive(Clone, Copy, Debug)]
pub struct TuningSpaceInfo {
    /// Byte length of the record as its sender declared it.
    pub size: u32,
    /// The kind; not always reliable.
    pub kind: TuningSpaceKind,
    /// The name.
    pub name: FixedWideString<64>,
}

} // verus!
