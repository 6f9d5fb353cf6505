use vstd::prelude::*;
use crate::win32::{Point, Rect, SystemTime};

verus! {

/// A programme in the programme guide.
#[derive(PartialEq, Eq, Structural, Clone, Copy, Debug)]
pub struct ProgramGuideProgramInfo {
    /// Network identifier.
    pub network_id: u16,
    /// Transport stream identifier.
    pub transport_stream_id: u16,
    /// Service identifier.
    pub service_id: u16,
    /// Event identifier.
    pub event_id: u16,
    /// Start time (EPG time, UTC+9).
    pub start_time: SystemTime,
    /// Length in seconds.
    pub duration: u32,
}

/// Where a programme's background in the guide is drawn.
#[derive(PartialEq, Eq, Structural, Clone, Copy, Debug)]
pub struct ProgramGuideProgramDrawBackgroundInfo {
    /// Device context handle to draw on.
    pub hdc: isize,
    /// The whole item.
    pub item_rect: Rect,
    /// The title.
    pub title_rect: Rect,
    /// The content.
    pub content_rect: Rect,
    /// Background colour.
    pub background_color: u32,
}

/// The programme guide menu being built.
#[derive(PartialEq, Eq, Structural, Clone, Copy, Debug)]
pub struct ProgramGuideInitializeMenuInfo {
    /// Menu handle.
    pub hmenu: isize,
    /// First item identifier.
    pub command: u32,
    /// Reserved.
    pub reserved: u32,
}

/// A programme's menu in the guide being built.
#[derive(PartialEq, Eq, Structural, Clone, Copy, Debug)]
pub struct ProgramGuideProgramInitializeMenuInfo {
    /// Menu handle.
    pub hmenu: isize,
    /// First item identifier.
    pub command: u32,
    /// Reserved.
    pub reserved: u32,
    /// Cursor position.
    pub cursor_pos: Point,
    /// The programme's item.
    pub item_rect: Rect,
}

/// Which programme guide events a plugin wants.
#[derive(PartialEq, Eq, Structural, Clone, Copy, Debug)]
pub enum ProgramGuideEventFlag {
    /// Events of the whole guide.
    General,
    /// Events of each programme.
    Program,
}

impl ProgramGuideEventFlag {
    /// The bit of each variant.
    pub open spec fn spec_bits(&self) -> u32 {
        match self {
            ProgramGuideEventFlag::General => 0x0001,
            ProgramGuideEventFlag::Program => 0x0002,
        }
    }

    /// The bit the host uses for this variant.
    #[verifier::when_used_as_spec(spec_bits)]
    pub fn bits(&self) -> (r: u32)
        ensures
            r == self.spec_bits(),
    {
        match self {
            ProgramGuideEventFlag::General => 0x0001,
            ProgramGuideEventFlag::Program => 0x0002,
        }
    }
}
/// Kinds of programme guide command.
#[derive(PartialEq, Eq, Structural, Clone, Copy, Debug)]
pub enum ProgramGuideCommandKind {
    /// A command on one programme.
    Program,
}

impl ProgramGuideCommandKind {
    /// The bit of each variant.
    pub open spec fn spec_bits(&self) -> u16 {
        match self {
            ProgramGuideCommandKind::Program => 0x0001,
        }
    }

    /// The bit the host uses for this variant.
    #[verifier::when_used_as_spec(spec_bits)]
    pub fn bits(&self) -> (r: u16)
        ensures
            r == self.spec_bits(),
    {
        match self {
            ProgramGuideCommandKind::Program => 0x0001,
        }
    }
}
/// How a programme guide command was invoked.
#[derive(PartialEq, Eq, Structural, Clone, Copy, Debug)]
pub enum ProgramGuideCommandAction {
    /// By mouse or the like.
    Mouse,
    /// By keyboard.
    Keyboard,
}

impl ProgramGuideCommandAction {
    /// The wire value of each variant.
    pub open spec fn spec_value(&self) -> u32 {
        match self {
            ProgramGuideCommandAction::Mouse => 0,
            ProgramGuideCommandAction::Keyboard => 1,
        }
    }

    /// The wire value the host uses for this variant.
    #[verifier::when_used_as_spec(spec_value)]
    pub fn value(&self) -> (r: u32)
        ensures
            r == self.spec_value(),
    {
        match self {
            ProgramGuideCommandAction::Mouse => 0,
            ProgramGuideCommandAction::Keyboard => 1,
        }
    }

    /// The variant with a given wire value, if any.
    pub open spec fn spec_from_value(v: u32) -> Option<ProgramGuideCommandAction> {
        if v == 0 {
            Some(ProgramGuideCommandAction::Mouse)
        } else if v == 1 {
            Some(ProgramGuideCommandAction::Keyboard)
        } else {
            None
        }
    }

    /// Reads a variant from its wire value; a value that names none gives `None`.
    pub fn from_value(v: u32) -> (r: Option<ProgramGuideCommandAction>)
        ensures
            r == Self::spec_from_value(v),
            r matches Some(e) ==> e.spec_value() == v,
    {
        if v == 0 {
            Some(ProgramGuideCommandAction::Mouse)
        } else if v == 1 {
            Some(ProgramGuideCommandAction::Keyboard)
        } else {
            None
        }
    }
}
/// A programme guide command being run.
#[derive(PartialEq, Eq, Structural, Clone, Copy, Debug)]
pub struct ProgramGuideCommandParam {
    /// Command identifier.
    pub id: u32,
    /// How it was invoked.
    pub action: ProgramGuideCommandAction,
    /// The programme.
    pub program: ProgramGuideProgramInfo,
    /// Cursor position.
    pub cursor_pos: Point,
    /// The programme's item.
    pub item_rect: Rect,
}

} // verus!
