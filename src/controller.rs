use vstd::prelude::*;
use crate::win32::WideStringPtr;

verus! {

#[derive(PartialEq, Eq, Structural, Clone, Copy, Debug)]
/// Where a button sits on the controller image (ignored without an image).
pub struct ControllerButtonRect {
    pub left: u16,
    pub top: u16,
    pub width: u16,
    pub height: u16,
}

#[derive(PartialEq, Eq, Structural, Clone, Copy, Debug)]
/// Where a selection button sits on its image (ignored without an image).
pub struct ControllerSelectButtonPosition {
    pub left: u16,
    pub top: u16,
}

#[derive(PartialEq, Eq, Structural, Clone, Copy, Debug)]
/// A button of a controller.
pub struct ControllerButtonInfo {
    /// The button's name.
    pub name: WideStringPtr,
    /// The default command; null for none.
    pub default_command: WideStringPtr,
    /// Where the button sits on the image.
    pub button_rect: ControllerButtonRect,
    /// Where the selection button sits.
    pub select_button_position: ControllerSelectButtonPosition,
    /// Reserved; zero.
    pub reserved: u32,
}

/// Flags of a controller.
#[derive(PartialEq, Eq, Structural, Clone, Copy, Debug)]
pub enum ControllerFlag {
    /// Usable only while the host is active.
    ActiveOnly,
}

impl ControllerFlag {
    /// The bit of each variant.
    pub open spec fn spec_bits(&self) -> u32 {
        match self {
            ControllerFlag::ActiveOnly => 0x0000_0001,
        }
    }

    /// The bit the host uses for this variant.
    #[verifier::when_used_as_spec(spec_bits)]
    pub fn bits(&self) -> (r: u32)
        ensures
            r == self.spec_bits(),
    {
        match self {
            ControllerFlag::ActiveOnly => 0x0000_0001,
        }
    }
}
/// Which controller settings are set.
#[derive(PartialEq, Eq, Structural, Clone, Copy, Debug)]
pub enum ControllerSettingsMask {
    /// The flags are set.
    Flags,
}

impl ControllerSettingsMask {
    /// The bit of each variant.
    pub open spec fn spec_bits(&self) -> u32 {
        match self {
            ControllerSettingsMask::Flags => 0x0000_0001,
        }
    }

    /// The bit the host uses for this variant.
    #[verifier::when_used_as_spec(spec_bits)]
    pub fn bits(&self) -> (r: u32)
        ensures
            r == self.spec_bits(),
    {
        match self {
            ControllerSettingsMask::Flags => 0x0000_0001,
        }
    }
}
/// Controller setting flags.
#[derive(PartialEq, Eq, Structural, Clone, Copy, Debug)]
pub enum ControllerSettingsFlag {
    /// Only while the host is active.
    ActiveOnly,
}

impl ControllerSettingsFlag {
    /// The bit of each variant.
    pub open spec fn spec_bits(&self) -> u32 {
        match self {
            ControllerSettingsFlag::ActiveOnly => 0x0000_0001,
        }
    }

    /// The bit the host uses for this variant.
    #[verifier::when_used_as_spec(spec_bits)]
    pub fn bits(&self) -> (r: u32)
        ensures
            r == self.spec_bits(),
    {
        match self {
            ControllerSettingsFlag::ActiveOnly => 0x0000_0001,
        }
    }
}
} // verus!
