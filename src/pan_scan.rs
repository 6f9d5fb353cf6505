use vstd::prelude::*;

verus! {

/// The kind of pan and scan.
#[derive(PartialEq, Eq, Structural, Clone, Copy, Debug)]
pub enum PanScanKind {
    /// No pan and scan.
    Off,
    /// Letter box.
    LetterBox,
    /// Pillar box.
    PillarBox,
    /// Window box.
    WindowBox,
}

impl PanScanKind {
    /// The wire value of each variant.
    pub open spec fn spec_value(&self) -> i32 {
        match self {
            PanScanKind::Off => 0,
            PanScanKind::LetterBox => 1,
            PanScanKind::PillarBox => 2,
            PanScanKind::WindowBox => 3,
        }
    }

    /// The wire value the host uses for this variant.
    #[verifier::when_used_as_spec(spec_value)]
    pub fn value(&self) -> (r: i32)
        ensures
            r == self.spec_value(),
    {
        match self {
            PanScanKind::Off => 0,
            PanScanKind::LetterBox => 1,
            PanScanKind::PillarBox => 2,
            PanScanKind::WindowBox => 3,
        }
    }

    /// The variant with a given wire value, if any.
    pub open spec fn spec_from_value(v: i32) -> Option<PanScanKind> {
        if v == 0 {
            Some(PanScanKind::Off)
        } else if v == 1 {
            Some(PanScanKind::LetterBox)
        } else if v == 2 {
            Some(PanScanKind::PillarBox)
        } else if v == 3 {
            Some(PanScanKind::WindowBox)
        } else {
            None
        }
    }

    /// Reads a variant from its wire value; a value that names none gives `None`.
    pub fn from_value(v: i32) -> (r: Option<PanScanKind>)
        ensures
            r == Self::spec_from_value(v),
            r matches Some(e) ==> e.spec_value() == v,
    {
        if v == 0 {
            Some(PanScanKind::Off)
        } else if v == 1 {
            Some(PanScanKind::LetterBox)
        } else if v == 2 {
            Some(PanScanKind::PillarBox)
        } else if v == 3 {
            Some(PanScanKind::WindowBox)
        } else {
            None
        }
    }
}
#[derive(PartialEq, Eq, Structural, Clone, Copy, Debug)]
/// Pan and scan settings.
pub struct PanScanInfo {
    /// Byte length of the record as its sender declared it.
    pub size: u32,
    /// Kind.
    pub kind: PanScanKind,
    /// Horizontal aspect.
    pub x_aspect: i32,
    /// Vertical aspect.
    pub y_aspect: i32,
}

} // verus!
