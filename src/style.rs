use vstd::prelude::*;
use crate::win32::WideStringPtr;

verus! {

/// The unit of a style value.
#[derive(PartialEq, Eq, Structural, Clone, Copy, Debug)]
pub enum StyleUnit {
    /// Undefined.
    Undefined,
    /// Logical pixels (at 96 DPI).
    LogicalPixel,
    /// Physical pixels.
    PhysicalPixel,
    /// Points (1/72 inch).
    Point,
    /// Dips (1/160 inch).
    Dip,
}

impl StyleUnit {
    /// The wire value of each variant.
    pub open spec fn spec_value(&self) -> u32 {
        match self {
            StyleUnit::Undefined => 0,
            StyleUnit::LogicalPixel => 1,
            StyleUnit::PhysicalPixel => 2,
            StyleUnit::Point => 3,
            StyleUnit::Dip => 4,
        }
    }

    /// The wire value the host uses for this variant.
    #[verifier::when_used_as_spec(spec_value)]
    pub fn value(&self) -> (r: u32)
        ensures
            r == self.spec_value(),
    {
        match self {
            StyleUnit::Undefined => 0,
            StyleUnit::LogicalPixel => 1,
            StyleUnit::PhysicalPixel => 2,
            StyleUnit::Point => 3,
            StyleUnit::Dip => 4,
        }
    }

    /// The variant with a given wire value, if any.
    pub open spec fn spec_from_value(v: u32) -> Option<StyleUnit> {
        if v == 0 {
            Some(StyleUnit::Undefined)
        } else if v == 1 {
            Some(StyleUnit::LogicalPixel)
        } else if v == 2 {
            Some(StyleUnit::PhysicalPixel)
        } else if v == 3 {
            Some(StyleUnit::Point)
        } else if v == 4 {
            Some(StyleUnit::Dip)
        } else {
            None
        }
    }

    /// Reads a variant from its wire value; a value that names none gives `None`.
    pub fn from_value(v: u32) -> (r: Option<StyleUnit>)
        ensures
            r == Self::spec_from_value(v),
            r matches Some(e) ==> e.spec_value() == v,
    {
        if v == 0 {
            Some(StyleUnit::Undefined)
        } else if v == 1 {
            Some(StyleUnit::LogicalPixel)
        } else if v == 2 {
            Some(StyleUnit::PhysicalPixel)
        } else if v == 3 {
            Some(StyleUnit::Point)
        } else if v == 4 {
            Some(StyleUnit::Dip)
        } else {
            None
        }
    }
}
#[derive(PartialEq, Eq, Structural, Clone, Copy, Debug)]
/// A style value read from the host.
pub struct StyleValueInfo {
    /// Byte length of the record as its sender declared it.
    pub size: u32,
    /// Flags (always zero so far).
    pub flags: u32,
    /// Style name.
    pub name: WideStringPtr,
    /// Unit asked for.
    pub unit: StyleUnit,
    /// DPI.
    pub dpi: i32,
    /// The value.
    pub value: i32,
}

} // verus!
