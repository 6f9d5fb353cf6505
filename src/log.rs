use vstd::prelude::*;

verus! {

/// The kind of a log entry.
#[derive(PartialEq, Eq, Structural, Clone, Copy, Debug)]
pub enum LogKind {
    /// Information.
    Information,
    /// A warning.
    Warning,
    /// An error.
    Error,
}

impl LogKind {
    /// The wire value of each variant.
    pub open spec fn spec_value(&self) -> u32 {
        match self {
            LogKind::Information => 0,
            LogKind::Warning => 1,
            LogKind::Error => 2,
        }
    }

    /// The wire value the host uses for this variant.
    #[verifier::when_used_as_spec(spec_value)]
    pub fn value(&self) -> (r: u32)
        ensures
            r == self.spec_value(),
    {
        match self {
            LogKind::Information => 0,
            LogKind::Warning => 1,
            LogKind::Error => 2,
        }
    }

    /// The variant with a given wire value, if any.
    pub open spec fn spec_from_value(v: u32) -> Option<LogKind> {
        if v == 0 {
            Some(LogKind::Information)
        } else if v == 1 {
            Some(LogKind::Warning)
        } else if v == 2 {
            Some(LogKind::Error)
        } else {
            None
        }
    }

    /// Reads a variant from its wire value; a value that names none gives `None`.
    pub fn from_value(v: u32) -> (r: Option<LogKind>)
        ensures
            r == Self::spec_from_value(v),
            r matches Some(e) ==> e.spec_value() == v,
    {
        if v == 0 {
            Some(LogKind::Information)
        } else if v == 1 {
            Some(LogKind::Warning)
        } else if v == 2 {
            Some(LogKind::Error)
        } else {
            None
        }
    }
}
/// Flags for reading the log.
#[derive(PartialEq, Eq, Structural, Clone, Copy, Debug)]
pub enum GetLogFlag {
    /// Read by serial number.
    BySerial,
}

impl GetLogFlag {
    /// The bit of each variant.
    pub open spec fn spec_bits(&self) -> u32 {
        match self {
            GetLogFlag::BySerial => 0x0000_0001,
        }
    }

    /// The bit the host uses for this variant.
    #[verifier::when_used_as_spec(spec_bits)]
    pub fn bits(&self) -> (r: u32)
        ensures
            r == self.spec_bits(),
    {
        match self {
            GetLogFlag::BySerial => 0x0000_0001,
        }
    }
}
} // verus!
