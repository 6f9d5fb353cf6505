use vstd::prelude::*;
use crate::win32::WideStringPtr;

verus! {

/// The kind of a plugin.
#[derive(PartialEq, Eq, Structural, Clone, Copy, Debug)]
pub enum PluginKind {
    /// An ordinary plugin.
    Normal,
}

impl PluginKind {
    /// The wire value of each variant.
    pub open spec fn spec_value(&self) -> u32 {
        match self {
            PluginKind::Normal => 0,
        }
    }

    /// The wire value the host uses for this variant.
    #[verifier::when_used_as_spec(spec_value)]
    pub fn value(&self) -> (r: u32)
        ensures
            r == self.spec_value(),
    {
        match self {
            PluginKind::Normal => 0,
        }
    }

    /// The variant with a given wire value, if any.
    pub open spec fn spec_from_value(v: u32) -> Option<PluginKind> {
        if v == 0 {
            Some(PluginKind::Normal)
        } else {
            None
        }
    }

    /// Reads a variant from its wire value; a value that names none gives `None`.
    pub fn from_value(v: u32) -> (r: Option<PluginKind>)
        ensures
            r == Self::spec_from_value(v),
            r matches Some(e) ==> e.spec_value() == v,
    {
        if v == 0 {
            Some(PluginKind::Normal)
        } else {
            None
        }
    }
}
/// Flags of a plugin.
#[derive(PartialEq, Eq, Structural, Clone, Copy, Debug)]
pub enum PluginFlag {
    /// Has a settings dialog.
    HasSettings,
    /// Enabled by default.
    EnableDefault,
    /// Always disabled at start.
    DisableOnStart,
    /// Unloaded only at exit.
    NoUnload,
    /// Has no enabled state; gets no enable events.
    NoEnabledDisabled,
}

impl PluginFlag {
    /// The bit of each variant.
    pub open spec fn spec_bits(&self) -> u32 {
        match self {
            PluginFlag::HasSettings => 0x0000_0001,
            PluginFlag::EnableDefault => 0x0000_0002,
            PluginFlag::DisableOnStart => 0x0000_0004,
            PluginFlag::NoUnload => 0x0000_0008,
            PluginFlag::NoEnabledDisabled => 0x0000_0010,
        }
    }

    /// The bit the host uses for this variant.
    #[verifier::when_used_as_spec(spec_bits)]
    pub fn bits(&self) -> (r: u32)
        ensures
            r == self.spec_bits(),
    {
        match self {
            PluginFlag::HasSettings => 0x0000_0001,
            PluginFlag::EnableDefault => 0x0000_0002,
            PluginFlag::DisableOnStart => 0x0000_0004,
            PluginFlag::NoUnload => 0x0000_0008,
            PluginFlag::NoEnabledDisabled => 0x0000_0010,
        }
    }
}
#[derive(PartialEq, Eq, Structural, Clone, Copy, Debug)]
/// What a plugin tells the host about itself.
pub struct PluginInfo {
    /// Kind.
    pub kind: PluginKind,
    /// Bits of [`PluginFlag`].
    pub flags: u32,
    /// Name.
    pub name: WideStringPtr,
    /// Copyright.
    pub copyright: WideStringPtr,
    /// Description.
    pub description: WideStringPtr,
}

} // verus!
