use vstd::prelude::*;

verus! {

/// The type of a setting's value.
#[derive(PartialEq, Eq, Structural, Clone, Copy, Debug)]
pub enum SettingKind {
    /// Undefined.
    Undefined,
    /// A signed integer.
    Int,
    /// An unsigned integer.
    UnsignedInt,
    /// A text.
    String,
    /// Raw data.
    Data,
}

impl SettingKind {
    /// The wire value of each variant.
    pub open spec fn spec_value(&self) -> u32 {
        match self {
            SettingKind::Undefined => 0,
            SettingKind::Int => 1,
            SettingKind::UnsignedInt => 2,
            SettingKind::String => 3,
            SettingKind::Data => 4,
        }
    }

    /// The wire value the host uses for this variant.
    #[verifier::when_used_as_spec(spec_value)]
    pub fn value(&self) -> (r: u32)
        ensures
            r == self.spec_value(),
    {
        match self {
            SettingKind::Undefined => 0,
            SettingKind::Int => 1,
            SettingKind::UnsignedInt => 2,
            SettingKind::String => 3,
            SettingKind::Data => 4,
        }
    }

    /// The variant with a given wire value, if any.
    pub open spec fn spec_from_value(v: u32) -> Option<SettingKind> {
        if v == 0 {
            Some(SettingKind::Undefined)
        } else if v == 1 {
            Some(SettingKind::Int)
        } else if v == 2 {
            Some(SettingKind::UnsignedInt)
        } else if v == 3 {
            Some(SettingKind::String)
        } else if v == 4 {
            Some(SettingKind::Data)
        } else {
            None
        }
    }

    /// Reads a variant from its wire value; a value that names none gives `None`.
    pub fn from_value(v: u32) -> (r: Option<SettingKind>)
        ensures
            r == Self::spec_from_value(v),
            r matches Some(e) ==> e.spec_value() == v,
    {
        if v == 0 {
            Some(SettingKind::Undefined)
        } else if v == 1 {
            Some(SettingKind::Int)
        } else if v == 2 {
            Some(SettingKind::UnsignedInt)
        } else if v == 3 {
            Some(SettingKind::String)
        } else if v == 4 {
            Some(SettingKind::Data)
        } else {
            None
        }
    }
}
} // verus!
