use vstd::prelude::*;
use crate::win32::{Rect, WideStringPtr};

verus! {

/// A command of the host.
#[derive(PartialEq, Eq, Structural, Clone, Copy, Debug)]
pub struct CommandInfo {
    /// Identifier.
    pub id: i32,
    /// Command text.
    pub text: WideStringPtr,
    /// Command name.
    pub name: WideStringPtr,
}

/// A host command read by index.
#[derive(PartialEq, Eq, Structural, Clone, Copy, Debug)]
pub struct AppCommandInfo {
    /// Byte length of the record as its sender declared it.
    pub size: u32,
    /// Index of the command.
    pub index: u32,
    /// Buffer for the command text.
    pub text: WideStringPtr,
    /// Capacity of the text buffer, in units.
    pub max_text: u32,
    /// Buffer for the command name.
    pub name: WideStringPtr,
    /// Capacity of the name buffer, in units.
    pub max_name: u32,
}

/// Flags of a plugin command.
#[derive(PartialEq, Eq, Structural, Clone, Copy, Debug)]
pub enum PluginCommandFlag {
    /// Show an icon (in the side bar and the like).
    Iconize,
    /// Have the plugin draw the icon.
    NotifyDrawIcon,
}

impl PluginCommandFlag {
    /// The bit of each variant.
    pub open spec fn spec_bits(&self) -> u32 {
        match self {
            PluginCommandFlag::Iconize => 0x0000_0001,
            PluginCommandFlag::NotifyDrawIcon => 0x0000_0002,
        }
    }

    /// The bit the host uses for this variant.
    #[verifier::when_used_as_spec(spec_bits)]
    pub fn bits(&self) -> (r: u32)
        ensures
            r == self.spec_bits(),
    {
        match self {
            PluginCommandFlag::Iconize => 0x0000_0001,
            PluginCommandFlag::NotifyDrawIcon => 0x0000_0002,
        }
    }
}
/// State flags of a plugin command.
#[derive(PartialEq, Eq, Structural, Clone, Copy, Debug)]
pub enum PluginCommandState {
    /// Disabled.
    Disabled,
    /// Checked.
    Checked,
}

impl PluginCommandState {
    /// The bit of each variant.
    pub open spec fn spec_bits(&self) -> u32 {
        match self {
            PluginCommandState::Disabled => 0x0000_0001,
            PluginCommandState::Checked => 0x0000_0002,
        }
    }

    /// The bit the host uses for this variant.
    #[verifier::when_used_as_spec(spec_bits)]
    pub fn bits(&self) -> (r: u32)
        ensures
            r == self.spec_bits(),
    {
        match self {
            PluginCommandState::Disabled => 0x0000_0001,
            PluginCommandState::Checked => 0x0000_0002,
        }
    }
}
/// Kinds of plugin command notification.
#[derive(PartialEq, Eq, Structural, Clone, Copy, Debug)]
pub enum PluginCommandNotify {
    /// Redraw the icon.
    ChangeIcon,
}

impl PluginCommandNotify {
    /// The bit of each variant.
    pub open spec fn spec_bits(&self) -> u32 {
        match self {
            PluginCommandNotify::ChangeIcon => 0x0000_0001,
        }
    }

    /// The bit the host uses for this variant.
    #[verifier::when_used_as_spec(spec_bits)]
    pub fn bits(&self) -> (r: u32)
        ensures
            r == self.spec_bits(),
    {
        match self {
            PluginCommandNotify::ChangeIcon => 0x0000_0001,
        }
    }
}
/// State flags of a command icon.
#[derive(PartialEq, Eq, Structural, Clone, Copy, Debug)]
pub enum CommandIconState {
    /// Disabled.
    Disabled,
    /// Checked.
    Checked,
    /// Has the focus.
    Hot,
}

impl CommandIconState {
    /// The bit of each variant.
    pub open spec fn spec_bits(&self) -> u16 {
        match self {
            CommandIconState::Disabled => 0x0001,
            CommandIconState::Checked => 0x0002,
            CommandIconState::Hot => 0x0004,
        }
    }

    /// The bit the host uses for this variant.
    #[verifier::when_used_as_spec(spec_bits)]
    pub fn bits(&self) -> (r: u16)
        ensures
            r == self.spec_bits(),
    {
        match self {
            CommandIconState::Disabled => 0x0001,
            CommandIconState::Checked => 0x0002,
            CommandIconState::Hot => 0x0004,
        }
    }
}
/// A command icon to draw.
#[derive(Clone, Copy, Debug)]
pub struct DrawCommandIconInfo {
    /// Command identifier.
    pub id: i32,
    /// Flags.
    pub flags: u16,
    /// Bits of [`CommandIconState`].
    pub state: u16,
    /// Style name.
    pub style: WideStringPtr,
    /// Device context handle to draw on.
    pub hdc: isize,
    /// Where to draw.
    pub draw_rect: Rect,
    /// Colour.
    pub color: u32,
    /// Opacity.
    pub opacity: u8,
    /// Reserved.
    pub reserved: [u8; 3],
}

} // verus!
