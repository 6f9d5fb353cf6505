//! The dispatch table for host notifications: each identifier's two words are
//! decoded into the payload it declares, handed to the handler, and its answer
//! encoded back into one word.
use vstd::prelude::*;
use crate::command::DrawCommandIconInfo;
use crate::event::Event;
use crate::event_handler::TVTestEventHandler;
use crate::filter_graph::FilterGraphInfo;
use crate::panel::PanelItemEventInfo;
use crate::program_guide::{
    ProgramGuideCommandParam, ProgramGuideInitializeMenuInfo, ProgramGuideProgramDrawBackgroundInfo,
    ProgramGuideProgramInfo, ProgramGuideProgramInitializeMenuInfo,
};
use crate::record::{RecordStatus, StartRecordInfo};
use crate::status_item::{StatusItemDrawInfo, StatusItemEventInfo, StatusItemMouseEventInfo};
use crate::stereo_mode::StereoMode;
use crate::variable::GetVariableInfo;
use crate::win32::{WideStringPtr, WindowHandle};

verus! {

/// Why the plugin library's entry point is called.
#[derive(PartialEq, Eq, Structural, Clone, Copy, Debug)]
pub enum DllLoadReason {
    /// The process unloads the library.
    ProcessDetach,
    /// The process loads the library.
    ProcessAttach,
    /// A thread starts.
    ThreadAttach,
    /// A thread ends.
    ThreadDetach,
}

impl DllLoadReason {
    /// The wire value of each variant.
    pub open spec fn spec_value(&self) -> u32 {
        match self {
            DllLoadReason::ProcessDetach => 0,
            DllLoadReason::ProcessAttach => 1,
            DllLoadReason::ThreadAttach => 2,
            DllLoadReason::ThreadDetach => 3,
        }
    }

    /// The wire value the host uses for this variant.
    #[verifier::when_used_as_spec(spec_value)]
    pub fn value(&self) -> (r: u32)
        ensures
            r == self.spec_value(),
    {
        match self {
            DllLoadReason::ProcessDetach => 0,
            DllLoadReason::ProcessAttach => 1,
            DllLoadReason::ThreadAttach => 2,
            DllLoadReason::ThreadDetach => 3,
        }
    }

    /// The variant with a given wire value, if any.
    pub open spec fn spec_from_value(v: u32) -> Option<DllLoadReason> {
        if v == 0 {
            Some(DllLoadReason::ProcessDetach)
        } else if v == 1 {
            Some(DllLoadReason::ProcessAttach)
        } else if v == 2 {
            Some(DllLoadReason::ThreadAttach)
        } else if v == 3 {
            Some(DllLoadReason::ThreadDetach)
        } else {
            None
        }
    }

    /// Reads a variant from its wire value; a value that names none gives `None`.
    pub fn from_value(v: u32) -> (r: Option<DllLoadReason>)
        ensures
            r == Self::spec_from_value(v),
            r matches Some(e) ==> e.spec_value() == v,
    {
        if v == 0 {
            Some(DllLoadReason::ProcessDetach)
        } else if v == 1 {
            Some(DllLoadReason::ProcessAttach)
        } else if v == 2 {
            Some(DllLoadReason::ThreadAttach)
        } else if v == 3 {
            Some(DllLoadReason::ThreadDetach)
        } else {
            None
        }
    }
}
/// The record shapes that a notification word may point at.
#[derive(PartialEq, Eq, Structural, Clone, Copy, Debug)]
pub enum RecordKind {
    /// A recording about to start.
    StartRecord,
    /// A programme guide command being run.
    ProgramGuideCommandParam,
    /// The programme guide menu being built.
    ProgramGuideInitializeMenu,
    /// A programme in the guide.
    ProgramGuideProgram,
    /// Where a programme's background is drawn.
    ProgramGuideProgramDrawBackground,
    /// A programme's menu being built.
    ProgramGuideProgramInitializeMenu,
    /// A filter graph.
    FilterGraph,
    /// A command icon to draw.
    DrawCommandIcon,
    /// A status item to draw.
    StatusItemDraw,
    /// A status item notification.
    StatusItemEvent,
    /// A mouse action on a status item.
    StatusItemMouseEvent,
    /// A panel item notification.
    PanelItemEvent,
    /// A variable the host asks for.
    GetVariable,
}

/// A record copied out of host memory for the length of one notification.
#[derive(Clone, Copy, Debug)]
pub enum Record {
    /// A recording about to start.
    StartRecord(StartRecordInfo),
    /// A programme guide command being run.
    ProgramGuideCommandParam(ProgramGuideCommandParam),
    /// The programme guide menu being built.
    ProgramGuideInitializeMenu(ProgramGuideInitializeMenuInfo),
    /// A programme in the guide.
    ProgramGuideProgram(ProgramGuideProgramInfo),
    /// Where a programme's background is drawn.
    ProgramGuideProgramDrawBackground(ProgramGuideProgramDrawBackgroundInfo),
    /// A programme's menu being built.
    ProgramGuideProgramInitializeMenu(ProgramGuideProgramInitializeMenuInfo),
    /// A filter graph.
    FilterGraph(FilterGraphInfo),
    /// A command icon to draw.
    DrawCommandIcon(DrawCommandIconInfo),
    /// A status item to draw.
    StatusItemDraw(StatusItemDrawInfo),
    /// A status item notification.
    StatusItemEvent(StatusItemEventInfo),
    /// A mouse action on a status item.
    StatusItemMouseEvent(StatusItemMouseEventInfo),
    /// A panel item notification.
    PanelItemEvent(PanelItemEventInfo),
    /// A variable the host asks for.
    GetVariable(GetVariableInfo),
}

impl Record {
    /// The shape of this record.
    pub open spec fn spec_kind(&self) -> RecordKind {
        match self {
            Record::StartRecord(_) => RecordKind::StartRecord,
            Record::ProgramGuideCommandParam(_) => RecordKind::ProgramGuideCommandParam,
            Record::ProgramGuideInitializeMenu(_) => RecordKind::ProgramGuideInitializeMenu,
            Record::ProgramGuideProgram(_) => RecordKind::ProgramGuideProgram,
            Record::ProgramGuideProgramDrawBackground(_) => RecordKind::ProgramGuideProgramDrawBackground,
            Record::ProgramGuideProgramInitializeMenu(_) => RecordKind::ProgramGuideProgramInitializeMenu,
            Record::FilterGraph(_) => RecordKind::FilterGraph,
            Record::DrawCommandIcon(_) => RecordKind::DrawCommandIcon,
            Record::StatusItemDraw(_) => RecordKind::StatusItemDraw,
            Record::StatusItemEvent(_) => RecordKind::StatusItemEvent,
            Record::StatusItemMouseEvent(_) => RecordKind::StatusItemMouseEvent,
            Record::PanelItemEvent(_) => RecordKind::PanelItemEvent,
            Record::GetVariable(_) => RecordKind::GetVariable,
        }
    }

    /// The shape of this record.
    #[verifier::when_used_as_spec(spec_kind)]
    pub fn kind(&self) -> (r: RecordKind)
        ensures
            r == self.spec_kind(),
    {
        match self {
            Record::StartRecord(_) => RecordKind::StartRecord,
            Record::ProgramGuideCommandParam(_) => RecordKind::ProgramGuideCommandParam,
            Record::ProgramGuideInitializeMenu(_) => RecordKind::ProgramGuideInitializeMenu,
            Record::ProgramGuideProgram(_) => RecordKind::ProgramGuideProgram,
            Record::ProgramGuideProgramDrawBackground(_) => RecordKind::ProgramGuideProgramDrawBackground,
            Record::ProgramGuideProgramInitializeMenu(_) => RecordKind::ProgramGuideProgramInitializeMenu,
            Record::FilterGraph(_) => RecordKind::FilterGraph,
            Record::DrawCommandIcon(_) => RecordKind::DrawCommandIcon,
            Record::StatusItemDraw(_) => RecordKind::StatusItemDraw,
            Record::StatusItemEvent(_) => RecordKind::StatusItemEvent,
            Record::StatusItemMouseEvent(_) => RecordKind::StatusItemMouseEvent,
            Record::PanelItemEvent(_) => RecordKind::PanelItemEvent,
            Record::GetVariable(_) => RecordKind::GetVariable,
        }
    }
}

/// A notification with its two words decoded into the payload its identifier
/// declares.
#[derive(Debug)]
pub enum Notification {
    PluginEnable(bool),
    PluginSettings(WindowHandle),
    ChannelChange,
    ServiceChange,
    DriverChange,
    ServiceUpdate,
    RecordStatusChange(RecordStatus),
    FullScreenChange(bool),
    PreviewChange(bool),
    VolumeChange(i32, bool),
    StereoModeChange(StereoMode),
    ColorChange,
    StandBy(bool),
    Command(i32),
    Execute(WideStringPtr),
    Reset,
    StatusReset,
    AudioStreamChange(i32),
    SettingsChange,
    Close,
    StartRecord(StartRecordInfo),
    RelayRecord(WideStringPtr),
    ControllerFocus(WindowHandle),
    StartUpDone,
    ProgramGuideInitialize(WindowHandle),
    ProgramGuideFinalize(WindowHandle),
    ProgramGuideCommand(u32, ProgramGuideCommandParam),
    ProgramGuideInitializeMenu(ProgramGuideInitializeMenuInfo),
    ProgramGuideMenuSelected(u32),
    ProgramGuideProgramDrawBackground(ProgramGuideProgramInfo, ProgramGuideProgramDrawBackgroundInfo),
    ProgramGuideProgramInitializeMenu(ProgramGuideProgramInfo, ProgramGuideProgramInitializeMenuInfo),
    ProgramGuideProgramMenuSelected(ProgramGuideProgramInfo, u32),
    FilterGraphInitialize(FilterGraphInfo),
    FilterGraphInitialized(FilterGraphInfo),
    FilterGraphFinalize(FilterGraphInfo),
    FilterGraphFinalized(FilterGraphInfo),
    DrawCommandIcon(DrawCommandIconInfo),
    StatusItemDraw(StatusItemDrawInfo),
    StatusItemNotify(StatusItemEventInfo),
    StatusItemMouse(StatusItemMouseEventInfo),
    PanelItemNotify(PanelItemEventInfo),
    FavoritesChanged,
    OneSegModeChanged(bool),
    GetVariable(GetVariableInfo),
}

impl Notification {
    /// The identifier this notification was decoded from.
    pub open spec fn event(&self) -> Event {
        match self {
            Notification::PluginEnable(_) => Event::PluginEnable,
            Notification::PluginSettings(_) => Event::PluginSettings,
            Notification::ChannelChange => Event::ChannelChange,
            Notification::ServiceChange => Event::ServiceChange,
            Notification::DriverChange => Event::DriverChange,
            Notification::ServiceUpdate => Event::ServiceUpdate,
            Notification::RecordStatusChange(_) => Event::RecordStatusChange,
            Notification::FullScreenChange(_) => Event::FullScreenChange,
            Notification::PreviewChange(_) => Event::PreviewChange,
            Notification::VolumeChange(_, _) => Event::VolumeChange,
            Notification::StereoModeChange(_) => Event::StereoModeChange,
            Notification::ColorChange => Event::ColorChange,
            Notification::StandBy(_) => Event::StandBy,
            Notification::Command(_) => Event::Command,
            Notification::Execute(_) => Event::Execute,
            Notification::Reset => Event::Reset,
            Notification::StatusReset => Event::StatusReset,
            Notification::AudioStreamChange(_) => Event::AudioStreamChange,
            Notification::SettingsChange => Event::SettingsChange,
            Notification::Close => Event::Close,
            Notification::StartRecord(_) => Event::StartRecord,
            Notification::RelayRecord(_) => Event::RelayRecord,
            Notification::ControllerFocus(_) => Event::ControllerFocus,
            Notification::StartUpDone => Event::StartUpDone,
            Notification::ProgramGuideInitialize(_) => Event::ProgramGuideInitialize,
            Notification::ProgramGuideFinalize(_) => Event::ProgramGuideFinalize,
            Notification::ProgramGuideCommand(_, _) => Event::ProgramGuideCommand,
            Notification::ProgramGuideInitializeMenu(_) => Event::ProgramGuideInitializeMenu,
            Notification::ProgramGuideMenuSelected(_) => Event::ProgramGuideMenuSelected,
            Notification::ProgramGuideProgramDrawBackground(_, _) => Event::ProgramGuideProgramDrawBackground,
            Notification::ProgramGuideProgramInitializeMenu(_, _) => Event::ProgramGuideProgramInitializeMenu,
            Notification::ProgramGuideProgramMenuSelected(_, _) => Event::ProgramGuideProgramMenuSelected,
            Notification::FilterGraphInitialize(_) => Event::FilterGraphInitialize,
            Notification::FilterGraphInitialized(_) => Event::FilterGraphInitialized,
            Notification::FilterGraphFinalize(_) => Event::FilterGraphFinalize,
            Notification::FilterGraphFinalized(_) => Event::FilterGraphFinalized,
            Notification::DrawCommandIcon(_) => Event::DrawCommandIcon,
            Notification::StatusItemDraw(_) => Event::StatusItemDraw,
            Notification::StatusItemNotify(_) => Event::StatusItemNotify,
            Notification::StatusItemMouse(_) => Event::StatusItemMouse,
            Notification::PanelItemNotify(_) => Event::PanelItemNotify,
            Notification::FavoritesChanged => Event::FavoritesChanged,
            Notification::OneSegModeChanged(_) => Event::OneSegModeChanged,
            Notification::GetVariable(_) => Event::GetVariable,
        }
    }
}

/// The word that stands for a truth value: one for true, zero for false.
pub open spec fn bool_word(b: bool) -> isize {
    if b {
        1
    } else {
        0
    }
}

/// The word that carries a record status, when it names one.
pub open spec fn record_status_of(w: isize) -> Option<RecordStatus> {
    if 0 <= w <= u32::MAX {
        RecordStatus::spec_from_value(w as u32)
    } else {
        None
    }
}

/// The events whose payload is plain words, with no record to copy.
pub open spec fn is_scalar(e: Event) -> bool {
    match e {
        Event::PluginEnable | Event::PluginSettings | Event::ChannelChange | Event::ServiceChange
        | Event::DriverChange | Event::ServiceUpdate | Event::RecordStatusChange
        | Event::FullScreenChange | Event::PreviewChange | Event::VolumeChange
        | Event::StereoModeChange | Event::ColorChange | Event::StandBy | Event::Command
        | Event::Execute | Event::RelayRecord | Event::Reset | Event::StatusReset | Event::AudioStreamChange | Event::SettingsChange
        | Event::Close | Event::ControllerFocus | Event::StartUpDone
        | Event::ProgramGuideInitialize | Event::ProgramGuideFinalize
        | Event::ProgramGuideMenuSelected | Event::FavoritesChanged
        | Event::OneSegModeChanged => true,
        _ => false,
    }
}

/// The payload of an event whose words are plain values; `None` where the words
/// hold no value of the declared shape.
pub open spec fn scalar_payload(e: Event, p1: isize, p2: isize) -> Option<Notification> {
    match e {
        Event::PluginEnable => Some(Notification::PluginEnable(p1 != 0)),
        Event::PluginSettings => Some(Notification::PluginSettings(WindowHandle(p1))),
        Event::ChannelChange => Some(Notification::ChannelChange),
        Event::ServiceChange => Some(Notification::ServiceChange),
        Event::DriverChange => Some(Notification::DriverChange),
        Event::ServiceUpdate => Some(Notification::ServiceUpdate),
        Event::RecordStatusChange => match record_status_of(p1) {
            Some(s) => Some(Notification::RecordStatusChange(s)),
            None => None,
        },
        Event::FullScreenChange => Some(Notification::FullScreenChange(p1 != 0)),
        Event::PreviewChange => Some(Notification::PreviewChange(p1 != 0)),
        Event::VolumeChange => Some(Notification::VolumeChange(p1 as i32, p2 != 0)),
        Event::StereoModeChange => match StereoMode::spec_from_value(p1) {
            Some(m) => Some(Notification::StereoModeChange(m)),
            None => None,
        },
        Event::ColorChange => Some(Notification::ColorChange),
        Event::StandBy => Some(Notification::StandBy(p1 != 0)),
        Event::Command => Some(Notification::Command(p1 as i32)),
        Event::Execute => Some(Notification::Execute(WideStringPtr(p1 as usize))),
        Event::Reset => Some(Notification::Reset),
        Event::StatusReset => Some(Notification::StatusReset),
        Event::AudioStreamChange => Some(Notification::AudioStreamChange(p1 as i32)),
        Event::SettingsChange => Some(Notification::SettingsChange),
        Event::Close => Some(Notification::Close),
        Event::RelayRecord => Some(Notification::RelayRecord(WideStringPtr(p1 as usize))),
        Event::ControllerFocus => Some(Notification::ControllerFocus(WindowHandle(p1))),
        Event::StartUpDone => Some(Notification::StartUpDone),
        Event::ProgramGuideInitialize => Some(Notification::ProgramGuideInitialize(WindowHandle(p1))),
        Event::ProgramGuideFinalize => Some(Notification::ProgramGuideFinalize(WindowHandle(p1))),
        Event::ProgramGuideMenuSelected => Some(Notification::ProgramGuideMenuSelected(p1 as u32)),
        Event::FavoritesChanged => Some(Notification::FavoritesChanged),
        Event::OneSegModeChanged => Some(Notification::OneSegModeChanged(p1 != 0)),
        _ => None,
    }
}

/// The words of `e` that must hold a non-null record address, and are null, or
/// a plain word that names no value of its declared enumeration.
pub open spec fn payload_rejected(e: Event, p1: isize, p2: isize) -> bool {
    match e {
        Event::RecordStatusChange => record_status_of(p1) is None,
        Event::StereoModeChange => StereoMode::spec_from_value(p1) is None,
        Event::ProgramGuideCommand => p2 == 0,
        Event::ProgramGuideProgramDrawBackground | Event::ProgramGuideProgramInitializeMenu => p1 == 0
            || p2 == 0,
        Event::StartRecord | Event::ProgramGuideInitializeMenu
        | Event::ProgramGuideProgramMenuSelected | Event::FilterGraphInitialize
        | Event::FilterGraphInitialized | Event::FilterGraphFinalize | Event::FilterGraphFinalized
        | Event::DrawCommandIcon | Event::StatusItemDraw | Event::StatusItemNotify
        | Event::StatusItemMouse | Event::PanelItemNotify | Event::GetVariable => p1 == 0,
        _ => false,
    }
}

/// `f` is what copying the record of shape `kind` at the address word `w` may
/// give: nothing for the null address; otherwise what `read_record` handed
/// back, when it is a record of that shape.
pub open spec fn fetched<R: Fn(usize, RecordKind) -> Option<Record>>(
    read_record: R,
    w: isize,
    kind: RecordKind,
    f: Option<Record>,
) -> bool {
    if w == 0 {
        f is None
    } else {
        exists|o: Option<Record>|
            #[trigger] read_record.ensures((w as usize, kind), o) && f == match o {
                Some(rec) => if rec.spec_kind() == kind {
                    Some(rec)
                } else {
                    None
                },
                None => None,
            }
    }
}

/// The record reader may be called on any non-null address.
pub open spec fn reader_ready<R: Fn(usize, RecordKind) -> Option<Record>>(read_record: R) -> bool {
    forall|a: usize, k: RecordKind| a != 0 ==> #[trigger] read_record.requires((a, k))
}

/// `d` is what decoding the words of `e` may give: for plain words, the value
/// they carry; for record addresses, the notification built from the records
/// copied from them, or nothing when one could not be copied.
pub open spec fn decode_outcome<R: Fn(usize, RecordKind) -> Option<Record>>(
    e: Event,
    p1: isize,
    p2: isize,
    read_record: R,
    d: Option<Notification>,
) -> bool {
    match e {
        Event::StartRecord => exists|f: Option<Record>|
            #[trigger] fetched(read_record, p1, RecordKind::StartRecord, f) && d == match f {
                Some(Record::StartRecord(i)) => Some(Notification::StartRecord(i)),
                _ => None,
            },
        Event::ProgramGuideCommand => exists|f: Option<Record>|
            #[trigger] fetched(read_record, p2, RecordKind::ProgramGuideCommandParam, f) && d == match f {
                Some(Record::ProgramGuideCommandParam(i)) => Some(Notification::ProgramGuideCommand(p1 as u32, i)),
                _ => None,
            },
        Event::ProgramGuideInitializeMenu => exists|f: Option<Record>|
            #[trigger] fetched(read_record, p1, RecordKind::ProgramGuideInitializeMenu, f) && d == match f {
                Some(Record::ProgramGuideInitializeMenu(i)) => Some(Notification::ProgramGuideInitializeMenu(i)),
                _ => None,
            },
        Event::ProgramGuideProgramMenuSelected => exists|f: Option<Record>|
            #[trigger] fetched(read_record, p1, RecordKind::ProgramGuideProgram, f) && d == match f {
                Some(Record::ProgramGuideProgram(i)) => Some(Notification::ProgramGuideProgramMenuSelected(i, p2 as u32)),
                _ => None,
            },
        Event::FilterGraphInitialize => exists|f: Option<Record>|
            #[trigger] fetched(read_record, p1, RecordKind::FilterGraph, f) && d == match f {
                Some(Record::FilterGraph(i)) => Some(Notification::FilterGraphInitialize(i)),
                _ => None,
            },
        Event::FilterGraphInitialized => exists|f: Option<Record>|
            #[trigger] fetched(read_record, p1, RecordKind::FilterGraph, f) && d == match f {
                Some(Record::FilterGraph(i)) => Some(Notification::FilterGraphInitialized(i)),
                _ => None,
            },
        Event::FilterGraphFinalize => exists|f: Option<Record>|
            #[trigger] fetched(read_record, p1, RecordKind::FilterGraph, f) && d == match f {
                Some(Record::FilterGraph(i)) => Some(Notification::FilterGraphFinalize(i)),
                _ => None,
            },
        Event::FilterGraphFinalized => exists|f: Option<Record>|
            #[trigger] fetched(read_record, p1, RecordKind::FilterGraph, f) && d == match f {
                Some(Record::FilterGraph(i)) => Some(Notification::FilterGraphFinalized(i)),
                _ => None,
            },
        Event::DrawCommandIcon => exists|f: Option<Record>|
            #[trigger] fetched(read_record, p1, RecordKind::DrawCommandIcon, f) && d == match f {
                Some(Record::DrawCommandIcon(i)) => Some(Notification::DrawCommandIcon(i)),
                _ => None,
            },
        Event::StatusItemDraw => exists|f: Option<Record>|
            #[trigger] fetched(read_record, p1, RecordKind::StatusItemDraw, f) && d == match f {
                Some(Record::StatusItemDraw(i)) => Some(Notification::StatusItemDraw(i)),
                _ => None,
            },
        Event::StatusItemNotify => exists|f: Option<Record>|
            #[trigger] fetched(read_record, p1, RecordKind::StatusItemEvent, f) && d == match f {
                Some(Record::StatusItemEvent(i)) => Some(Notification::StatusItemNotify(i)),
                _ => None,
            },
        Event::StatusItemMouse => exists|f: Option<Record>|
            #[trigger] fetched(read_record, p1, RecordKind::StatusItemMouseEvent, f) && d == match f {
                Some(Record::StatusItemMouseEvent(i)) => Some(Notification::StatusItemMouse(i)),
                _ => None,
            },
        Event::PanelItemNotify => exists|f: Option<Record>|
            #[trigger] fetched(read_record, p1, RecordKind::PanelItemEvent, f) && d == match f {
                Some(Record::PanelItemEvent(i)) => Some(Notification::PanelItemNotify(i)),
                _ => None,
            },
        Event::GetVariable => exists|f: Option<Record>|
            #[trigger] fetched(read_record, p1, RecordKind::GetVariable, f) && d == match f {
                Some(Record::GetVariable(i)) => Some(Notification::GetVariable(i)),
                _ => None,
            },
        Event::ProgramGuideProgramDrawBackground => exists|f: Option<Record>, g: Option<Record>|
            #[trigger] fetched(read_record, p1, RecordKind::ProgramGuideProgram, f) && #[trigger] fetched(
                read_record,
                p2,
                RecordKind::ProgramGuideProgramDrawBackground,
                g,
            ) && d == match (f, g) {
                (Some(Record::ProgramGuideProgram(p)), Some(Record::ProgramGuideProgramDrawBackground(i))) => Some(
                    Notification::ProgramGuideProgramDrawBackground(p, i),
                ),
                _ => None,
            },
        Event::ProgramGuideProgramInitializeMenu => exists|f: Option<Record>, g: Option<Record>|
            #[trigger] fetched(read_record, p1, RecordKind::ProgramGuideProgram, f) && #[trigger] fetched(
                read_record,
                p2,
                RecordKind::ProgramGuideProgramInitializeMenu,
                g,
            ) && d == match (f, g) {
                (Some(Record::ProgramGuideProgram(p)), Some(Record::ProgramGuideProgramInitializeMenu(i))) => Some(
                    Notification::ProgramGuideProgramInitializeMenu(p, i),
                ),
                _ => None,
            },
        Event::Trailer => d is None,
        _ => d == scalar_payload(e, p1, p2),
    }
}

/// The address an address word carries; the null word is the null address.
fn address_of(w: isize) -> (a: usize)
    ensures
        a == w as usize,
        (a == 0) == (w == 0),
{
    assert((w as usize == 0) == (w == 0)) by (bit_vector);
    #[verifier::truncate]
    (w as usize)
}

/// Copies the record of shape `kind` at the address word `w`; `None` for the
/// null address, for a record the reader could not copy, and for a record of
/// another shape.
fn fetch_record<R: Fn(usize, RecordKind) -> Option<Record>>(read_record: &R, w: isize, kind: RecordKind) -> (r:
    Option<Record>)
    requires
        reader_ready(*read_record),
    ensures
        fetched(*read_record, w, kind, r),
{
    if w == 0 {
        return None;
    }
    let o = read_record(address_of(w), kind);
    let r = match o {
        Some(rec) => {
            if rec.kind() == kind {
                Some(rec)
            } else {
                None
            }
        },
        None => None,
    };
    assert(read_record.ensures((w as usize, kind), o));
    r
}

/// Decodes the two words of event `e` into the payload it declares. Plain words
/// are converted as they stand, a text address is handed on as it is, and a
/// record address is followed through `read_record`. `None` where a mandatory
/// record address is null, a word names no value of its enumeration, or a
/// record could not be copied.
pub fn decode_notification<R: Fn(usize, RecordKind) -> Option<Record>>(
    e: Event,
    p1: isize,
    p2: isize,
    read_record: &R,
) -> (r: Option<Notification>)
    requires
        reader_ready(*read_record),
    ensures
        decode_outcome(e, p1, p2, *read_record, r),
        r matches Some(n) ==> n.event() == e,
        payload_rejected(e, p1, p2) ==> r is None,
{
    match e {
        Event::PluginEnable => Some(Notification::PluginEnable(p1 != 0)),
        Event::PluginSettings => Some(Notification::PluginSettings(WindowHandle(p1))),
        Event::ChannelChange => Some(Notification::ChannelChange),
        Event::ServiceChange => Some(Notification::ServiceChange),
        Event::DriverChange => Some(Notification::DriverChange),
        Event::ServiceUpdate => Some(Notification::ServiceUpdate),
        Event::RecordStatusChange => {
            if 0 <= (p1 as i64) && (p1 as i64) <= 0xFFFF_FFFFi64 {
                match RecordStatus::from_value(p1 as u32) {
                    Some(s) => Some(Notification::RecordStatusChange(s)),
                    None => None,
                }
            } else {
                None
            }
        },
        Event::FullScreenChange => Some(Notification::FullScreenChange(p1 != 0)),
        Event::PreviewChange => Some(Notification::PreviewChange(p1 != 0)),
        Event::VolumeChange => Some(Notification::VolumeChange(p1 as i32, p2 != 0)),
        Event::StereoModeChange => match StereoMode::from_value(p1) {
            Some(m) => Some(Notification::StereoModeChange(m)),
            None => None,
        },
        Event::ColorChange => Some(Notification::ColorChange),
        Event::StandBy => Some(Notification::StandBy(p1 != 0)),
        Event::Command => Some(Notification::Command(p1 as i32)),
        Event::Execute => Some(Notification::Execute(WideStringPtr(address_of(p1)))),
        Event::Reset => Some(Notification::Reset),
        Event::StatusReset => Some(Notification::StatusReset),
        Event::AudioStreamChange => Some(Notification::AudioStreamChange(p1 as i32)),
        Event::SettingsChange => Some(Notification::SettingsChange),
        Event::Close => Some(Notification::Close),
        Event::RelayRecord => Some(Notification::RelayRecord(WideStringPtr(address_of(p1)))),
        Event::ControllerFocus => Some(Notification::ControllerFocus(WindowHandle(p1))),
        Event::StartUpDone => Some(Notification::StartUpDone),
        Event::ProgramGuideInitialize => Some(Notification::ProgramGuideInitialize(WindowHandle(p1))),
        Event::ProgramGuideFinalize => Some(Notification::ProgramGuideFinalize(WindowHandle(p1))),
        Event::ProgramGuideMenuSelected => Some(Notification::ProgramGuideMenuSelected(p1 as u32)),
        Event::FavoritesChanged => Some(Notification::FavoritesChanged),
        Event::OneSegModeChanged => Some(Notification::OneSegModeChanged(p1 != 0)),
        Event::StartRecord => {
            let f = fetch_record(read_record, p1, RecordKind::StartRecord);
            match f {
                Some(Record::StartRecord(i)) => Some(Notification::StartRecord(i)),
                _ => None,
            }
        },
        Event::ProgramGuideCommand => {
            let f = fetch_record(read_record, p2, RecordKind::ProgramGuideCommandParam);
            match f {
                Some(Record::ProgramGuideCommandParam(i)) => Some(Notification::ProgramGuideCommand(p1 as u32, i)),
                _ => None,
            }
        },
        Event::ProgramGuideInitializeMenu => {
            let f = fetch_record(read_record, p1, RecordKind::ProgramGuideInitializeMenu);
            match f {
                Some(Record::ProgramGuideInitializeMenu(i)) => Some(Notification::ProgramGuideInitializeMenu(i)),
                _ => None,
            }
        },
        Event::ProgramGuideProgramMenuSelected => {
            let f = fetch_record(read_record, p1, RecordKind::ProgramGuideProgram);
            match f {
                Some(Record::ProgramGuideProgram(i)) => Some(Notification::ProgramGuideProgramMenuSelected(i, p2 as u32)),
                _ => None,
            }
        },
        Event::FilterGraphInitialize => {
            let f = fetch_record(read_record, p1, RecordKind::FilterGraph);
            match f {
                Some(Record::FilterGraph(i)) => Some(Notification::FilterGraphInitialize(i)),
                _ => None,
            }
        },
        Event::FilterGraphInitialized => {
            let f = fetch_record(read_record, p1, RecordKind::FilterGraph);
            match f {
                Some(Record::FilterGraph(i)) => Some(Notification::FilterGraphInitialized(i)),
                _ => None,
            }
        },
        Event::FilterGraphFinalize => {
            let f = fetch_record(read_record, p1, RecordKind::FilterGraph);
            match f {
                Some(Record::FilterGraph(i)) => Some(Notification::FilterGraphFinalize(i)),
                _ => None,
            }
        },
        Event::FilterGraphFinalized => {
            let f = fetch_record(read_record, p1, RecordKind::FilterGraph);
            match f {
                Some(Record::FilterGraph(i)) => Some(Notification::FilterGraphFinalized(i)),
                _ => None,
            }
        },
        Event::DrawCommandIcon => {
            let f = fetch_record(read_record, p1, RecordKind::DrawCommandIcon);
            match f {
                Some(Record::DrawCommandIcon(i)) => Some(Notification::DrawCommandIcon(i)),
                _ => None,
            }
        },
        Event::StatusItemDraw => {
            let f = fetch_record(read_record, p1, RecordKind::StatusItemDraw);
            match f {
                Some(Record::StatusItemDraw(i)) => Some(Notification::StatusItemDraw(i)),
                _ => None,
            }
        },
        Event::StatusItemNotify => {
            let f = fetch_record(read_record, p1, RecordKind::StatusItemEvent);
            match f {
                Some(Record::StatusItemEvent(i)) => Some(Notification::StatusItemNotify(i)),
                _ => None,
            }
        },
        Event::StatusItemMouse => {
            let f = fetch_record(read_record, p1, RecordKind::StatusItemMouseEvent);
            match f {
                Some(Record::StatusItemMouseEvent(i)) => Some(Notification::StatusItemMouse(i)),
                _ => None,
            }
        },
        Event::PanelItemNotify => {
            let f = fetch_record(read_record, p1, RecordKind::PanelItemEvent);
            match f {
                Some(Record::PanelItemEvent(i)) => Some(Notification::PanelItemNotify(i)),
                _ => None,
            }
        },
        Event::GetVariable => {
            let f = fetch_record(read_record, p1, RecordKind::GetVariable);
            match f {
                Some(Record::GetVariable(i)) => Some(Notification::GetVariable(i)),
                _ => None,
            }
        },
        Event::ProgramGuideProgramDrawBackground => {
            let f = fetch_record(read_record, p1, RecordKind::ProgramGuideProgram);
            let g = fetch_record(read_record, p2, RecordKind::ProgramGuideProgramDrawBackground);
            match (f, g) {
                (Some(Record::ProgramGuideProgram(p)), Some(Record::ProgramGuideProgramDrawBackground(i))) => Some(
                    Notification::ProgramGuideProgramDrawBackground(p, i),
                ),
                _ => None,
            }
        },
        Event::ProgramGuideProgramInitializeMenu => {
            let f = fetch_record(read_record, p1, RecordKind::ProgramGuideProgram);
            let g = fetch_record(read_record, p2, RecordKind::ProgramGuideProgramInitializeMenu);
            match (f, g) {
                (Some(Record::ProgramGuideProgram(p)), Some(Record::ProgramGuideProgramInitializeMenu(i))) => Some(
                    Notification::ProgramGuideProgramInitializeMenu(p, i),
                ),
                _ => None,
            }
        },
        Event::Trailer => None,
    }
}

/// What a handler answers: nothing, a truth value, or a number.
#[derive(PartialEq, Eq, Structural, Clone, Copy, Debug)]
pub enum Reply {
    /// A notification that takes no answer.
    Void,
    /// A yes or no.
    Flag(bool),
    /// A count.
    Number(i32),
}

/// The word that carries an answer: a truth value as one or zero, no answer as zero.
pub open spec fn reply_word(r: Reply) -> isize {
    match r {
        Reply::Void => 0,
        Reply::Flag(b) => bool_word(b),
        Reply::Number(n) => n as isize,
    }
}

/// The word a plugin that implements nothing answers to each event, also given
/// where the payload breaks the protocol.
pub open spec fn default_word(e: Event) -> isize {
    match e {
        Event::ProgramGuideInitialize | Event::ProgramGuideFinalize => 1,
        _ => 0,
    }
}

/// Encodes an answer into the one word the host reads back.
pub fn encode_reply(r: Reply) -> (w: isize)
    ensures
        w == reply_word(r),
{
    match r {
        Reply::Void => 0,
        Reply::Flag(b) => if b {
            1
        } else {
            0
        },
        Reply::Number(n) => n as isize,
    }
}

/// The word answered to event `e` when its payload breaks the protocol.
pub fn default_reply(e: Event) -> (w: isize)
    ensures
        w == default_word(e),
{
    match e {
        Event::ProgramGuideInitialize | Event::ProgramGuideFinalize => 1,
        _ => 0,
    }
}

/// `a` is an answer that the handler method of `n`'s event may give when it is
/// called with `n`'s payload: a truth value or a count, as the method returns
/// it, or no answer for a method that returns nothing.
pub open spec fn delivered<H: TVTestEventHandler>(handler: &H, n: Notification, a: Reply) -> bool {
    match n {
        Notification::PluginEnable(x) => match a {
            Reply::Flag(b) => call_ensures(H::on_plugin_enable, (handler, x), b),
            _ => false,
        },
        Notification::PluginSettings(w) => match a {
            Reply::Flag(b) => call_ensures(H::on_plugin_settings, (handler, w), b),
            _ => false,
        },
        Notification::ChannelChange => match a {
            Reply::Flag(b) => call_ensures(H::on_channel_change, (handler,), b),
            _ => false,
        },
        Notification::ServiceChange => match a {
            Reply::Flag(b) => call_ensures(H::on_service_change, (handler,), b),
            _ => false,
        },
        Notification::DriverChange => match a {
            Reply::Flag(b) => call_ensures(H::on_driver_change, (handler,), b),
            _ => false,
        },
        Notification::ServiceUpdate => match a {
            Reply::Flag(b) => call_ensures(H::on_service_update, (handler,), b),
            _ => false,
        },
        Notification::RecordStatusChange(s) => match a {
            Reply::Flag(b) => call_ensures(H::on_record_status_change, (handler, s), b),
            _ => false,
        },
        Notification::FullScreenChange(x) => match a {
            Reply::Flag(b) => call_ensures(H::on_fullscreen_change, (handler, x), b),
            _ => false,
        },
        Notification::PreviewChange(x) => match a {
            Reply::Flag(b) => call_ensures(H::on_preview_change, (handler, x), b),
            _ => false,
        },
        Notification::VolumeChange(v, m) => match a {
            Reply::Flag(b) => call_ensures(H::on_volume_change, (handler, v, m), b),
            _ => false,
        },
        Notification::StereoModeChange(m) => match a {
            Reply::Flag(b) => call_ensures(H::on_stereo_mode_change, (handler, m), b),
            _ => false,
        },
        Notification::ColorChange => match a {
            Reply::Flag(b) => call_ensures(H::on_color_change, (handler,), b),
            _ => false,
        },
        Notification::StandBy(x) => match a {
            Reply::Flag(b) => call_ensures(H::on_standby, (handler, x), b),
            _ => false,
        },
        Notification::Command(id) => match a {
            Reply::Flag(b) => call_ensures(H::on_command, (handler, id), b),
            _ => false,
        },
        Notification::Execute(p) => match a {
            Reply::Flag(b) => call_ensures(H::on_execute, (handler, p), b),
            _ => false,
        },
        Notification::Reset => match a {
            Reply::Flag(b) => call_ensures(H::on_reset, (handler,), b),
            _ => false,
        },
        Notification::StatusReset => match a {
            Reply::Flag(b) => call_ensures(H::on_status_reset, (handler,), b),
            _ => false,
        },
        Notification::AudioStreamChange(s) => match a {
            Reply::Flag(b) => call_ensures(H::on_audio_stream_change, (handler, s), b),
            _ => false,
        },
        Notification::SettingsChange => match a {
            Reply::Flag(b) => call_ensures(H::on_settings_change, (handler,), b),
            _ => false,
        },
        Notification::Close => match a {
            Reply::Flag(b) => call_ensures(H::on_close, (handler,), b),
            _ => false,
        },
        Notification::StartRecord(i) => match a {
            Reply::Flag(b) => call_ensures(H::on_start_record, (handler, &i), b),
            _ => false,
        },
        Notification::RelayRecord(p) => match a {
            Reply::Flag(b) => call_ensures(H::on_relay_record, (handler, p), b),
            _ => false,
        },
        Notification::ControllerFocus(w) => match a {
            Reply::Flag(b) => call_ensures(H::on_controller_focus, (handler, w), b),
            _ => false,
        },
        Notification::StartUpDone => match a {
            Reply::Void => call_ensures(H::on_startup_done, (handler,), ()),
            _ => false,
        },
        Notification::ProgramGuideInitialize(w) => match a {
            Reply::Flag(b) => call_ensures(H::on_program_guide_initialize, (handler, w), b),
            _ => false,
        },
        Notification::ProgramGuideFinalize(w) => match a {
            Reply::Flag(b) => call_ensures(H::on_program_guide_finalize, (handler, w), b),
            _ => false,
        },
        Notification::ProgramGuideCommand(c, p) => match a {
            Reply::Flag(b) => call_ensures(H::on_program_guide_command, (handler, c, &p), b),
            _ => false,
        },
        Notification::ProgramGuideInitializeMenu(i) => match a {
            Reply::Number(k) => call_ensures(H::on_program_guide_initialize_menu, (handler, &i), k),
            _ => false,
        },
        Notification::ProgramGuideMenuSelected(c) => match a {
            Reply::Flag(b) => call_ensures(H::on_program_guide_menu_selected, (handler, c), b),
            _ => false,
        },
        Notification::ProgramGuideProgramDrawBackground(p, i) => match a {
            Reply::Flag(b) => call_ensures(H::on_program_guide_program_draw_background, (handler, &p, &i), b),
            _ => false,
        },
        Notification::ProgramGuideProgramInitializeMenu(p, i) => match a {
            Reply::Number(k) => call_ensures(H::on_program_guide_program_initialize_menu, (handler, &p, &i), k),
            _ => false,
        },
        Notification::ProgramGuideProgramMenuSelected(p, c) => match a {
            Reply::Flag(b) => call_ensures(H::on_program_guide_program_menu_selected, (handler, &p, c), b),
            _ => false,
        },
        Notification::FilterGraphInitialize(i) => match a {
            Reply::Void => call_ensures(H::on_filter_graph_initialize, (handler, &i), ()),
            _ => false,
        },
        Notification::FilterGraphInitialized(i) => match a {
            Reply::Void => call_ensures(H::on_filter_graph_initialized, (handler, &i), ()),
            _ => false,
        },
        Notification::FilterGraphFinalize(i) => match a {
            Reply::Void => call_ensures(H::on_filter_graph_finalize, (handler, &i), ()),
            _ => false,
        },
        Notification::FilterGraphFinalized(i) => match a {
            Reply::Void => call_ensures(H::on_filter_graph_finalized, (handler, &i), ()),
            _ => false,
        },
        Notification::DrawCommandIcon(i) => match a {
            Reply::Flag(b) => call_ensures(H::on_draw_command_icon, (handler, &i), b),
            _ => false,
        },
        Notification::StatusItemDraw(i) => match a {
            Reply::Flag(b) => call_ensures(H::on_status_item_draw, (handler, &i), b),
            _ => false,
        },
        Notification::StatusItemNotify(i) => match a {
            Reply::Flag(b) => call_ensures(H::on_status_item_notify, (handler, &i), b),
            _ => false,
        },
        Notification::StatusItemMouse(i) => match a {
            Reply::Flag(b) => call_ensures(H::on_status_item_mouse_event, (handler, &i), b),
            _ => false,
        },
        Notification::PanelItemNotify(i) => match a {
            Reply::Flag(b) => call_ensures(H::on_panel_item_notify, (handler, &i), b),
            _ => false,
        },
        Notification::FavoritesChanged => match a {
            Reply::Void => call_ensures(H::on_favorites_changed, (handler,), ()),
            _ => false,
        },
        Notification::OneSegModeChanged(b) => match a {
            Reply::Void => call_ensures(H::on_one_seg_mode_changed, (handler, b), ()),
            _ => false,
        },
        Notification::GetVariable(i) => match a {
            Reply::Flag(b) => call_ensures(H::on_get_variable, (handler, &i), b),
            _ => false,
        },
    }
}

/// Hands a decoded notification to the handler method for its event, with the
/// notification's payload as the method's arguments.
pub fn deliver<H: TVTestEventHandler>(handler: &H, n: Notification) -> (r: Reply)
    ensures
        delivered(handler, n, r),
{
    match n {
        Notification::PluginEnable(x) => Reply::Flag(handler.on_plugin_enable(x)),
        Notification::PluginSettings(w) => Reply::Flag(handler.on_plugin_settings(w)),
        Notification::ChannelChange => Reply::Flag(handler.on_channel_change()),
        Notification::ServiceChange => Reply::Flag(handler.on_service_change()),
        Notification::DriverChange => Reply::Flag(handler.on_driver_change()),
        Notification::ServiceUpdate => Reply::Flag(handler.on_service_update()),
        Notification::RecordStatusChange(s) => Reply::Flag(handler.on_record_status_change(s)),
        Notification::FullScreenChange(x) => Reply::Flag(handler.on_fullscreen_change(x)),
        Notification::PreviewChange(x) => Reply::Flag(handler.on_preview_change(x)),
        Notification::VolumeChange(v, m) => Reply::Flag(handler.on_volume_change(v, m)),
        Notification::StereoModeChange(m) => Reply::Flag(handler.on_stereo_mode_change(m)),
        Notification::ColorChange => Reply::Flag(handler.on_color_change()),
        Notification::StandBy(x) => Reply::Flag(handler.on_standby(x)),
        Notification::Command(id) => Reply::Flag(handler.on_command(id)),
        Notification::Execute(p) => Reply::Flag(handler.on_execute(p)),
        Notification::Reset => Reply::Flag(handler.on_reset()),
        Notification::StatusReset => Reply::Flag(handler.on_status_reset()),
        Notification::AudioStreamChange(s) => Reply::Flag(handler.on_audio_stream_change(s)),
        Notification::SettingsChange => Reply::Flag(handler.on_settings_change()),
        Notification::Close => Reply::Flag(handler.on_close()),
        Notification::StartRecord(i) => Reply::Flag(handler.on_start_record(&i)),
        Notification::RelayRecord(p) => Reply::Flag(handler.on_relay_record(p)),
        Notification::ControllerFocus(w) => Reply::Flag(handler.on_controller_focus(w)),
        Notification::StartUpDone => {
            handler.on_startup_done();
            Reply::Void
        },
        Notification::ProgramGuideInitialize(w) => Reply::Flag(handler.on_program_guide_initialize(w)),
        Notification::ProgramGuideFinalize(w) => Reply::Flag(handler.on_program_guide_finalize(w)),
        Notification::ProgramGuideCommand(c, p) => Reply::Flag(handler.on_program_guide_command(c, &p)),
        Notification::ProgramGuideInitializeMenu(i) => Reply::Number(handler.on_program_guide_initialize_menu(&i)),
        Notification::ProgramGuideMenuSelected(c) => Reply::Flag(handler.on_program_guide_menu_selected(c)),
        Notification::ProgramGuideProgramDrawBackground(p, i) => Reply::Flag(handler.on_program_guide_program_draw_background(&p, &i)),
        Notification::ProgramGuideProgramInitializeMenu(p, i) => Reply::Number(handler.on_program_guide_program_initialize_menu(&p, &i)),
        Notification::ProgramGuideProgramMenuSelected(p, c) => Reply::Flag(handler.on_program_guide_program_menu_selected(&p, c)),
        Notification::FilterGraphInitialize(i) => {
            handler.on_filter_graph_initialize(&i);
            Reply::Void
        },
        Notification::FilterGraphInitialized(i) => {
            handler.on_filter_graph_initialized(&i);
            Reply::Void
        },
        Notification::FilterGraphFinalize(i) => {
            handler.on_filter_graph_finalize(&i);
            Reply::Void
        },
        Notification::FilterGraphFinalized(i) => {
            handler.on_filter_graph_finalized(&i);
            Reply::Void
        },
        Notification::DrawCommandIcon(i) => Reply::Flag(handler.on_draw_command_icon(&i)),
        Notification::StatusItemDraw(i) => Reply::Flag(handler.on_status_item_draw(&i)),
        Notification::StatusItemNotify(i) => Reply::Flag(handler.on_status_item_notify(&i)),
        Notification::StatusItemMouse(i) => Reply::Flag(handler.on_status_item_mouse_event(&i)),
        Notification::PanelItemNotify(i) => Reply::Flag(handler.on_panel_item_notify(&i)),
        Notification::FavoritesChanged => {
            handler.on_favorites_changed();
            Reply::Void
        },
        Notification::OneSegModeChanged(b) => {
            handler.on_one_seg_mode_changed(b);
            Reply::Void
        },
        Notification::GetVariable(i) => Reply::Flag(handler.on_get_variable(&i)),
    }
}

/// Answers one host notification: the identifier, its two words, and the
/// handler. Total over every identifier word. One that names no event, and the
/// trailer, get zero. Otherwise the words are decoded as the identifier
/// declares; a payload that cannot be decoded gets the event's default answer
/// without the handler being called, and a decoded one is handed to the
/// handler method of its event, whose answer is encoded into the word returned.
pub fn handle_event<H: TVTestEventHandler, R: Fn(usize, RecordKind) -> Option<Record>>(
    event: u32,
    param1: isize,
    param2: isize,
    handler: &H,
    read_record: &R,
) -> (r: isize)
    requires
        reader_ready(*read_record),
    ensures
        Event::spec_from_value(event) is None ==> r == 0,
        Event::spec_from_value(event) matches Some(e) ==> exists|d: Option<Notification>|
            #[trigger] decode_outcome(e, param1, param2, *read_record, d) && match d {
                Some(n) => exists|a: Reply| #[trigger] delivered(handler, n, a) && r == reply_word(a),
                None => r == default_word(e),
            },
        Event::spec_from_value(event) matches Some(e) ==> (payload_rejected(e, param1, param2) ==> r
            == default_word(e)),
{
    match Event::from_value(event) {
        None => 0,
        Some(e) => {
            let d = decode_notification(e, param1, param2, read_record);
            let ghost dd = d;
            match d {
                Some(n) => {
                    let ghost nn = n;
                    let a = deliver(handler, n);
                    let w = encode_reply(a);
                    assert(delivered(handler, nn, a) && w == reply_word(a));
                    assert(decode_outcome(e, param1, param2, *read_record, dd));
                    w
                },
                None => {
                    assert(decode_outcome(e, param1, param2, *read_record, dd));
                    default_reply(e)
                },
            }
        },
    }
}

/// A handler that implements none of the methods: it gives every notification
/// the documented default answer.
pub struct DefaultHandler;

impl TVTestEventHandler for DefaultHandler {

}

/// Whatever notification reaches a handler that implements nothing, its answer
/// encodes to the default word of the notification's event: one for the
/// programme guide opening and closing, zero for every other event.
pub proof fn lemma_default_answers(handler: &DefaultHandler, n: Notification, a: Reply)
    requires
        delivered(handler, n, a),
    ensures
        reply_word(a) == default_word(n.event()),
{
}

} // verus!
