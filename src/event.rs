//! The inbound notification identifiers.
use vstd::prelude::*;

verus! {

/// An inbound notification identifier. Each one fixes what its two words mean.
#[derive(PartialEq, Eq, Structural, Clone, Copy, Debug)]
pub enum Event {
    /// The plugin was enabled or disabled.
    PluginEnable,
    /// The plugin is asked to show its settings.
    PluginSettings,
    /// The channel changed.
    ChannelChange,
    /// The service changed.
    ServiceChange,
    /// The tuner driver changed.
    DriverChange,
    /// The set of services changed.
    ServiceUpdate,
    /// The recording state changed.
    RecordStatusChange,
    /// Full-screen display was entered or left.
    FullScreenChange,
    /// Preview display was turned on or off.
    PreviewChange,
    /// The volume changed.
    VolumeChange,
    /// The stereo mode changed.
    StereoModeChange,
    /// The colour settings changed.
    ColorChange,
    /// Stand-by was entered or left.
    StandBy,
    /// A command was chosen.
    Command,
    /// A second instance was started while only one is allowed.
    Execute,
    /// The host was reset.
    Reset,
    /// The status counters were reset.
    StatusReset,
    /// The audio stream changed.
    AudioStreamChange,
    /// The settings changed.
    SettingsChange,
    /// The host window is closing.
    Close,
    /// A recording is starting.
    StartRecord,
    /// The recording moved on to a new file.
    RelayRecord,
    /// The controller target is being set.
    ControllerFocus,
    /// The host finished starting up.
    StartUpDone,
    /// The programme guide is initialising.
    ProgramGuideInitialize,
    /// The programme guide is closing.
    ProgramGuideFinalize,
    /// A programme guide command runs.
    ProgramGuideCommand,
    /// The programme guide menu is being built.
    ProgramGuideInitializeMenu,
    /// A programme guide menu item was chosen.
    ProgramGuideMenuSelected,
    /// A programme's background in the guide is drawn.
    ProgramGuideProgramDrawBackground,
    /// A programme's menu in the guide is being built.
    ProgramGuideProgramInitializeMenu,
    /// A programme's menu item in the guide was chosen.
    ProgramGuideProgramMenuSelected,
    /// The filter graph starts initialising.
    FilterGraphInitialize,
    /// The filter graph finished initialising.
    FilterGraphInitialized,
    /// The filter graph starts shutting down.
    FilterGraphFinalize,
    /// The filter graph finished shutting down.
    FilterGraphFinalized,
    /// A command icon is drawn.
    DrawCommandIcon,
    /// A status item is drawn.
    StatusItemDraw,
    /// A status item is notified.
    StatusItemNotify,
    /// A mouse action hit a status item.
    StatusItemMouse,
    /// A panel item is notified.
    PanelItemNotify,
    /// The favourite channels changed.
    FavoritesChanged,
    /// One-segment mode was turned on or off.
    OneSegModeChanged,
    /// The host asks for the value of a variable.
    GetVariable,
    /// One past the last identifier; the host sends no event with it.
    Trailer,
}

impl Event {
    /// The wire value of each variant.
    pub open spec fn spec_value(&self) -> u32 {
        match self {
            Event::PluginEnable => 0,
            Event::PluginSettings => 1,
            Event::ChannelChange => 2,
            Event::ServiceChange => 3,
            Event::DriverChange => 4,
            Event::ServiceUpdate => 5,
            Event::RecordStatusChange => 6,
            Event::FullScreenChange => 7,
            Event::PreviewChange => 8,
            Event::VolumeChange => 9,
            Event::StereoModeChange => 10,
            Event::ColorChange => 11,
            Event::StandBy => 12,
            Event::Command => 13,
            Event::Execute => 14,
            Event::Reset => 15,
            Event::StatusReset => 16,
            Event::AudioStreamChange => 17,
            Event::SettingsChange => 18,
            Event::Close => 19,
            Event::StartRecord => 20,
            Event::RelayRecord => 21,
            Event::ControllerFocus => 22,
            Event::StartUpDone => 23,
            Event::ProgramGuideInitialize => 24,
            Event::ProgramGuideFinalize => 25,
            Event::ProgramGuideCommand => 26,
            Event::ProgramGuideInitializeMenu => 27,
            Event::ProgramGuideMenuSelected => 28,
            Event::ProgramGuideProgramDrawBackground => 29,
            Event::ProgramGuideProgramInitializeMenu => 30,
            Event::ProgramGuideProgramMenuSelected => 31,
            Event::FilterGraphInitialize => 32,
            Event::FilterGraphInitialized => 33,
            Event::FilterGraphFinalize => 34,
            Event::FilterGraphFinalized => 35,
            Event::DrawCommandIcon => 36,
            Event::StatusItemDraw => 37,
            Event::StatusItemNotify => 38,
            Event::StatusItemMouse => 39,
            Event::PanelItemNotify => 40,
            Event::FavoritesChanged => 41,
            Event::OneSegModeChanged => 42,
            Event::GetVariable => 43,
            Event::Trailer => 44,
        }
    }

    /// The wire value the host uses for this variant.
    #[verifier::when_used_as_spec(spec_value)]
    pub fn value(&self) -> (r: u32)
        ensures
            r == self.spec_value(),
    {
        match self {
            Event::PluginEnable => 0,
            Event::PluginSettings => 1,
            Event::ChannelChange => 2,
            Event::ServiceChange => 3,
            Event::DriverChange => 4,
            Event::ServiceUpdate => 5,
            Event::RecordStatusChange => 6,
            Event::FullScreenChange => 7,
            Event::PreviewChange => 8,
            Event::VolumeChange => 9,
            Event::StereoModeChange => 10,
            Event::ColorChange => 11,
            Event::StandBy => 12,
            Event::Command => 13,
            Event::Execute => 14,
            Event::Reset => 15,
            Event::StatusReset => 16,
            Event::AudioStreamChange => 17,
            Event::SettingsChange => 18,
            Event::Close => 19,
            Event::StartRecord => 20,
            Event::RelayRecord => 21,
            Event::ControllerFocus => 22,
            Event::StartUpDone => 23,
            Event::ProgramGuideInitialize => 24,
            Event::ProgramGuideFinalize => 25,
            Event::ProgramGuideCommand => 26,
            Event::ProgramGuideInitializeMenu => 27,
            Event::ProgramGuideMenuSelected => 28,
            Event::ProgramGuideProgramDrawBackground => 29,
            Event::ProgramGuideProgramInitializeMenu => 30,
            Event::ProgramGuideProgramMenuSelected => 31,
            Event::FilterGraphInitialize => 32,
            Event::FilterGraphInitialized => 33,
            Event::FilterGraphFinalize => 34,
            Event::FilterGraphFinalized => 35,
            Event::DrawCommandIcon => 36,
            Event::StatusItemDraw => 37,
            Event::StatusItemNotify => 38,
            Event::StatusItemMouse => 39,
            Event::PanelItemNotify => 40,
            Event::FavoritesChanged => 41,
            Event::OneSegModeChanged => 42,
            Event::GetVariable => 43,
            Event::Trailer => 44,
        }
    }

    /// The variant with a given wire value, if any.
    pub open spec fn spec_from_value(v: u32) -> Option<Event> {
        if v == 0 {
            Some(Event::PluginEnable)
        } else if v == 1 {
            Some(Event::PluginSettings)
        } else if v == 2 {
            Some(Event::ChannelChange)
        } else if v == 3 {
            Some(Event::ServiceChange)
        } else if v == 4 {
            Some(Event::DriverChange)
        } else if v == 5 {
            Some(Event::ServiceUpdate)
        } else if v == 6 {
            Some(Event::RecordStatusChange)
        } else if v == 7 {
            Some(Event::FullScreenChange)
        } else if v == 8 {
            Some(Event::PreviewChange)
        } else if v == 9 {
            Some(Event::VolumeChange)
        } else if v == 10 {
            Some(Event::StereoModeChange)
        } else if v == 11 {
            Some(Event::ColorChange)
        } else if v == 12 {
            Some(Event::StandBy)
        } else if v == 13 {
            Some(Event::Command)
        } else if v == 14 {
            Some(Event::Execute)
        } else if v == 15 {
            Some(Event::Reset)
        } else if v == 16 {
            Some(Event::StatusReset)
        } else if v == 17 {
            Some(Event::AudioStreamChange)
        } else if v == 18 {
            Some(Event::SettingsChange)
        } else if v == 19 {
            Some(Event::Close)
        } else if v == 20 {
            Some(Event::StartRecord)
        } else if v == 21 {
            Some(Event::RelayRecord)
        } else if v == 22 {
            Some(Event::ControllerFocus)
        } else if v == 23 {
            Some(Event::StartUpDone)
        } else if v == 24 {
            Some(Event::ProgramGuideInitialize)
        } else if v == 25 {
            Some(Event::ProgramGuideFinalize)
        } else if v == 26 {
            Some(Event::ProgramGuideCommand)
        } else if v == 27 {
            Some(Event::ProgramGuideInitializeMenu)
        } else if v == 28 {
            Some(Event::ProgramGuideMenuSelected)
        } else if v == 29 {
            Some(Event::ProgramGuideProgramDrawBackground)
        } else if v == 30 {
            Some(Event::ProgramGuideProgramInitializeMenu)
        } else if v == 31 {
            Some(Event::ProgramGuideProgramMenuSelected)
        } else if v == 32 {
            Some(Event::FilterGraphInitialize)
        } else if v == 33 {
            Some(Event::FilterGraphInitialized)
        } else if v == 34 {
            Some(Event::FilterGraphFinalize)
        } else if v == 35 {
            Some(Event::FilterGraphFinalized)
        } else if v == 36 {
            Some(Event::DrawCommandIcon)
        } else if v == 37 {
            Some(Event::StatusItemDraw)
        } else if v == 38 {
            Some(Event::StatusItemNotify)
        } else if v == 39 {
            Some(Event::StatusItemMouse)
        } else if v == 40 {
            Some(Event::PanelItemNotify)
        } else if v == 41 {
            Some(Event::FavoritesChanged)
        } else if v == 42 {
            Some(Event::OneSegModeChanged)
        } else if v == 43 {
            Some(Event::GetVariable)
        } else if v == 44 {
            Some(Event::Trailer)
        } else {
            None
        }
    }

    /// Reads a variant from its wire value; a value that names none gives `None`.
    pub fn from_value(v: u32) -> (r: Option<Event>)
        ensures
            r == Self::spec_from_value(v),
            r matches Some(e) ==> e.spec_value() == v,
    {
        if v == 0 {
            Some(Event::PluginEnable)
        } else if v == 1 {
            Some(Event::PluginSettings)
        } else if v == 2 {
            Some(Event::ChannelChange)
        } else if v == 3 {
            Some(Event::ServiceChange)
        } else if v == 4 {
            Some(Event::DriverChange)
        } else if v == 5 {
            Some(Event::ServiceUpdate)
        } else if v == 6 {
            Some(Event::RecordStatusChange)
        } else if v == 7 {
            Some(Event::FullScreenChange)
        } else if v == 8 {
            Some(Event::PreviewChange)
        } else if v == 9 {
            Some(Event::VolumeChange)
        } else if v == 10 {
            Some(Event::StereoModeChange)
        } else if v == 11 {
            Some(Event::ColorChange)
        } else if v == 12 {
            Some(Event::StandBy)
        } else if v == 13 {
            Some(Event::Command)
        } else if v == 14 {
            Some(Event::Execute)
        } else if v == 15 {
            Some(Event::Reset)
        } else if v == 16 {
            Some(Event::StatusReset)
        } else if v == 17 {
            Some(Event::AudioStreamChange)
        } else if v == 18 {
            Some(Event::SettingsChange)
        } else if v == 19 {
            Some(Event::Close)
        } else if v == 20 {
            Some(Event::StartRecord)
        } else if v == 21 {
            Some(Event::RelayRecord)
        } else if v == 22 {
            Some(Event::ControllerFocus)
        } else if v == 23 {
            Some(Event::StartUpDone)
        } else if v == 24 {
            Some(Event::ProgramGuideInitialize)
        } else if v == 25 {
            Some(Event::ProgramGuideFinalize)
        } else if v == 26 {
            Some(Event::ProgramGuideCommand)
        } else if v == 27 {
            Some(Event::ProgramGuideInitializeMenu)
        } else if v == 28 {
            Some(Event::ProgramGuideMenuSelected)
        } else if v == 29 {
            Some(Event::ProgramGuideProgramDrawBackground)
        } else if v == 30 {
            Some(Event::ProgramGuideProgramInitializeMenu)
        } else if v == 31 {
            Some(Event::ProgramGuideProgramMenuSelected)
        } else if v == 32 {
            Some(Event::FilterGraphInitialize)
        } else if v == 33 {
            Some(Event::FilterGraphInitialized)
        } else if v == 34 {
            Some(Event::FilterGraphFinalize)
        } else if v == 35 {
            Some(Event::FilterGraphFinalized)
        } else if v == 36 {
            Some(Event::DrawCommandIcon)
        } else if v == 37 {
            Some(Event::StatusItemDraw)
        } else if v == 38 {
            Some(Event::StatusItemNotify)
        } else if v == 39 {
            Some(Event::StatusItemMouse)
        } else if v == 40 {
            Some(Event::PanelItemNotify)
        } else if v == 41 {
            Some(Event::FavoritesChanged)
        } else if v == 42 {
            Some(Event::OneSegModeChanged)
        } else if v == 43 {
            Some(Event::GetVariable)
        } else if v == 44 {
            Some(Event::Trailer)
        } else {
            None
        }
    }
}
} // verus!
