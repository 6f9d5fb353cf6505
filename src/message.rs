//! The outbound call identifiers and the channel that carries one call.
use vstd::prelude::*;
use crate::channel::ChannelInfo;
use crate::service::ServiceInfo;
use crate::win32::{WideString, WindowHandle};

verus! {

/// An outbound call identifier. Each one fixes what its two words and its answer mean.
#[derive(PartialEq, Eq, Structural, Clone, Copy, Debug)]
pub enum Message {
    /// Get version.
    GetVersion,
    /// Ask whether the host supports a message.
    QueryMessage,
    /// Allocate, resize or free host memory.
    MemoryAlloc,
    /// Set event callback.
    SetEventCallback,
    /// Get current channel info.
    GetCurrentChannelInfo,
    /// Set channel.
    SetChannel,
    /// Get service.
    GetService,
    /// Set service.
    SetService,
    /// Get tuning space name.
    GetTuningSpaceName,
    /// Get channel info.
    GetChannelInfo,
    /// Get service info.
    GetServiceInfo,
    /// Get driver name.
    GetDriverName,
    /// Set driver name.
    SetDriverName,
    /// Start record.
    StartRecord,
    /// Stop record.
    StopRecord,
    /// Pause record.
    PauseRecord,
    /// Get record.
    GetRecord,
    /// Modify record.
    ModifyRecord,
    /// Get zoom.
    GetZoom,
    /// Set zoom.
    SetZoom,
    /// Get pan scan.
    GetPanScan,
    /// Set pan scan.
    SetPanScan,
    /// Get status.
    GetStatus,
    /// Get record status.
    GetRecordStatus,
    /// Get video info.
    GetVideoInfo,
    /// Get volume.
    GetVolume,
    /// Set volume.
    SetVolume,
    /// Get stereo mode.
    GetStereoMode,
    /// Set stereo mode.
    SetStereoMode,
    /// Get full screen.
    GetFullScreen,
    /// Set full screen.
    SetFullScreen,
    /// Get preview.
    GetPreview,
    /// Set preview.
    SetPreview,
    /// Get standby.
    GetStandby,
    /// Set standby.
    SetStandby,
    /// Get always on top.
    GetAlwaysOnTop,
    /// Set always on top.
    SetAlwaysOnTop,
    /// Capture image.
    CaptureImage,
    /// Save image.
    SaveImage,
    /// Reset.
    Reset,
    /// Close.
    Close,
    /// Set stream callback.
    SetStreamCallback,
    /// Enable plugin.
    EnablePlugin,
    /// Get color.
    GetColor,
    /// Decode an ARIB string.
    DecodeARIBString,
    /// Get current program info.
    GetCurrentProgramInfo,
    /// Ask whether the host sends an event.
    QueryEvent,
    /// Get tuning space.
    GetTuningSpace,
    /// Get tuning space info.
    GetTuningSpaceInfo,
    /// Set next channel.
    SetNextChannel,
    /// Get audio stream.
    GetAudioStream,
    /// Set audio stream.
    SetAudioStream,
    /// Is plugin enabled.
    IsPluginEnabled,
    /// Register command.
    RegisterCommand,
    /// Add log.
    AddLog,
    /// Reset status.
    ResetStatus,
    /// Set audio callback.
    SetAudioCallback,
    /// Do command.
    DoCommand,
    /// Withdrawn by the host; kept so that later identifiers keep their value.
    Removed1,
    /// Withdrawn by the host; kept so that later identifiers keep their value.
    Removed2,
    /// Get host info.
    GetHostInfo,
    /// Get setting.
    GetSetting,
    /// Get driver full path name.
    GetDriverFullPathName,
    /// Get logo.
    GetLogo,
    /// Get available logo type.
    GetAvailableLogoType,
    /// Relay record.
    RelayRecord,
    /// Silent mode.
    SilentMode,
    /// Set window message callback.
    SetWindowMessageCallback,
    /// Register controller.
    RegisterController,
    /// On controller button down.
    OnControllerButtonDown,
    /// Get controller settings.
    GetControllerSettings,
    /// Get a programme from the EPG.
    GetEPGEventInfo,
    /// Free a programme read from the EPG.
    FreeEPGEventInfo,
    /// Get the programme list from the EPG.
    GetEPGEventList,
    /// Free a programme list read from the EPG.
    FreeEPGEventList,
    /// Enum driver.
    EnumDriver,
    /// Get driver tuning space list.
    GetDriverTuningSpaceList,
    /// Free driver tuning space list.
    FreeDriverTuningSpaceList,
    /// Enable program guide event.
    EnableProgramGuideEvent,
    /// Register program guide command.
    RegisterProgramGuideCommand,
    /// Get style value.
    GetStyleValue,
    /// Theme draw background.
    ThemeDrawBackground,
    /// Theme draw text.
    ThemeDrawText,
    /// Theme draw icon.
    ThemeDrawIcon,
    /// Get how far the EPG was captured.
    GetEPGCaptureStatus,
    /// Get app command info.
    GetAppCommandInfo,
    /// Get app command count.
    GetAppCommandCount,
    /// Get video stream count.
    GetVideoStreamCount,
    /// Get video stream.
    GetVideoStream,
    /// Set video stream.
    SetVideoStream,
    /// Get log.
    GetLog,
    /// Get log count.
    GetLogCount,
    /// Register plugin command.
    RegisterPluginCommand,
    /// Set plugin command state.
    SetPluginCommandState,
    /// Plugin command notify.
    PluginCommandNotify,
    /// Register plugin icon.
    RegisterPluginIcon,
    /// Register status item.
    RegisterStatusItem,
    /// Set status item.
    SetStatusItem,
    /// Get status item info.
    GetStatusItemInfo,
    /// Status item notify.
    StatusItemNotify,
    /// Register a transport stream processor.
    RegisterTSProcessor,
    /// Register panel item.
    RegisterPanelItem,
    /// Set panel item.
    SetPanelItem,
    /// Get panel item info.
    GetPanelItemInfo,
    /// Select channel.
    SelectChannel,
    /// Get favorite list.
    GetFavoriteList,
    /// Free favorite list.
    FreeFavoriteList,
    /// Get one seg mode.
    GetOneSegMode,
    /// Set one seg mode.
    SetOneSegMode,
    /// Get the DPI.
    GetDPI,
    /// Get font.
    GetFont,
    /// Show dialog.
    ShowDialog,
    /// Convert time.
    ConvertTime,
    /// Set video stream callback.
    SetVideoStreamCallback,
    /// Get var string context.
    GetVarStringContext,
    /// Free var string context.
    FreeVarStringContext,
    /// Format var string.
    FormatVarString,
    /// Register variable.
    RegisterVariable,
    /// One past the last identifier.
    Trailer,
}

impl Message {
    /// The wire value of each variant.
    pub open spec fn spec_value(&self) -> u32 {
        match self {
            Message::GetVersion => 0,
            Message::QueryMessage => 1,
            Message::MemoryAlloc => 2,
            Message::SetEventCallback => 3,
            Message::GetCurrentChannelInfo => 4,
            Message::SetChannel => 5,
            Message::GetService => 6,
            Message::SetService => 7,
            Message::GetTuningSpaceName => 8,
            Message::GetChannelInfo => 9,
            Message::GetServiceInfo => 10,
            Message::GetDriverName => 11,
            Message::SetDriverName => 12,
            Message::StartRecord => 13,
            Message::StopRecord => 14,
            Message::PauseRecord => 15,
            Message::GetRecord => 16,
            Message::ModifyRecord => 17,
            Message::GetZoom => 18,
            Message::SetZoom => 19,
            Message::GetPanScan => 20,
            Message::SetPanScan => 21,
            Message::GetStatus => 22,
            Message::GetRecordStatus => 23,
            Message::GetVideoInfo => 24,
            Message::GetVolume => 25,
            Message::SetVolume => 26,
            Message::GetStereoMode => 27,
            Message::SetStereoMode => 28,
            Message::GetFullScreen => 29,
            Message::SetFullScreen => 30,
            Message::GetPreview => 31,
            Message::SetPreview => 32,
            Message::GetStandby => 33,
            Message::SetStandby => 34,
            Message::GetAlwaysOnTop => 35,
            Message::SetAlwaysOnTop => 36,
            Message::CaptureImage => 37,
            Message::SaveImage => 38,
            Message::Reset => 39,
            Message::Close => 40,
            Message::SetStreamCallback => 41,
            Message::EnablePlugin => 42,
            Message::GetColor => 43,
            Message::DecodeARIBString => 44,
            Message::GetCurrentProgramInfo => 45,
            Message::QueryEvent => 46,
            Message::GetTuningSpace => 47,
            Message::GetTuningSpaceInfo => 48,
            Message::SetNextChannel => 49,
            Message::GetAudioStream => 50,
            Message::SetAudioStream => 51,
            Message::IsPluginEnabled => 52,
            Message::RegisterCommand => 53,
            Message::AddLog => 54,
            Message::ResetStatus => 55,
            Message::SetAudioCallback => 56,
            Message::DoCommand => 57,
            Message::Removed1 => 58,
            Message::Removed2 => 59,
            Message::GetHostInfo => 60,
            Message::GetSetting => 61,
            Message::GetDriverFullPathName => 62,
            Message::GetLogo => 63,
            Message::GetAvailableLogoType => 64,
            Message::RelayRecord => 65,
            Message::SilentMode => 66,
            Message::SetWindowMessageCallback => 67,
            Message::RegisterController => 68,
            Message::OnControllerButtonDown => 69,
            Message::GetControllerSettings => 70,
            Message::GetEPGEventInfo => 71,
            Message::FreeEPGEventInfo => 72,
            Message::GetEPGEventList => 73,
            Message::FreeEPGEventList => 74,
            Message::EnumDriver => 75,
            Message::GetDriverTuningSpaceList => 76,
            Message::FreeDriverTuningSpaceList => 77,
            Message::EnableProgramGuideEvent => 78,
            Message::RegisterProgramGuideCommand => 79,
            Message::GetStyleValue => 80,
            Message::ThemeDrawBackground => 81,
            Message::ThemeDrawText => 82,
            Message::ThemeDrawIcon => 83,
            Message::GetEPGCaptureStatus => 84,
            Message::GetAppCommandInfo => 85,
            Message::GetAppCommandCount => 86,
            Message::GetVideoStreamCount => 87,
            Message::GetVideoStream => 88,
            Message::SetVideoStream => 89,
            Message::GetLog => 90,
            Message::GetLogCount => 91,
            Message::RegisterPluginCommand => 92,
            Message::SetPluginCommandState => 93,
            Message::PluginCommandNotify => 94,
            Message::RegisterPluginIcon => 95,
            Message::RegisterStatusItem => 96,
            Message::SetStatusItem => 97,
            Message::GetStatusItemInfo => 98,
            Message::StatusItemNotify => 99,
            Message::RegisterTSProcessor => 100,
            Message::RegisterPanelItem => 101,
            Message::SetPanelItem => 102,
            Message::GetPanelItemInfo => 103,
            Message::SelectChannel => 104,
            Message::GetFavoriteList => 105,
            Message::FreeFavoriteList => 106,
            Message::GetOneSegMode => 107,
            Message::SetOneSegMode => 108,
            Message::GetDPI => 109,
            Message::GetFont => 110,
            Message::ShowDialog => 111,
            Message::ConvertTime => 112,
            Message::SetVideoStreamCallback => 113,
            Message::GetVarStringContext => 114,
            Message::FreeVarStringContext => 115,
            Message::FormatVarString => 116,
            Message::RegisterVariable => 117,
            Message::Trailer => 118,
        }
    }

    /// The wire value the host uses for this variant.
    #[verifier::when_used_as_spec(spec_value)]
    pub fn value(&self) -> (r: u32)
        ensures
            r == self.spec_value(),
    {
        match self {
            Message::GetVersion => 0,
            Message::QueryMessage => 1,
            Message::MemoryAlloc => 2,
            Message::SetEventCallback => 3,
            Message::GetCurrentChannelInfo => 4,
            Message::SetChannel => 5,
            Message::GetService => 6,
            Message::SetService => 7,
            Message::GetTuningSpaceName => 8,
            Message::GetChannelInfo => 9,
            Message::GetServiceInfo => 10,
            Message::GetDriverName => 11,
            Message::SetDriverName => 12,
            Message::StartRecord => 13,
            Message::StopRecord => 14,
            Message::PauseRecord => 15,
            Message::GetRecord => 16,
            Message::ModifyRecord => 17,
            Message::GetZoom => 18,
            Message::SetZoom => 19,
            Message::GetPanScan => 20,
            Message::SetPanScan => 21,
            Message::GetStatus => 22,
            Message::GetRecordStatus => 23,
            Message::GetVideoInfo => 24,
            Message::GetVolume => 25,
            Message::SetVolume => 26,
            Message::GetStereoMode => 27,
            Message::SetStereoMode => 28,
            Message::GetFullScreen => 29,
            Message::SetFullScreen => 30,
            Message::GetPreview => 31,
            Message::SetPreview => 32,
            Message::GetStandby => 33,
            Message::SetStandby => 34,
            Message::GetAlwaysOnTop => 35,
            Message::SetAlwaysOnTop => 36,
            Message::CaptureImage => 37,
            Message::SaveImage => 38,
            Message::Reset => 39,
            Message::Close => 40,
            Message::SetStreamCallback => 41,
            Message::EnablePlugin => 42,
            Message::GetColor => 43,
            Message::DecodeARIBString => 44,
            Message::GetCurrentProgramInfo => 45,
            Message::QueryEvent => 46,
            Message::GetTuningSpace => 47,
            Message::GetTuningSpaceInfo => 48,
            Message::SetNextChannel => 49,
            Message::GetAudioStream => 50,
            Message::SetAudioStream => 51,
            Message::IsPluginEnabled => 52,
            Message::RegisterCommand => 53,
            Message::AddLog => 54,
            Message::ResetStatus => 55,
            Message::SetAudioCallback => 56,
            Message::DoCommand => 57,
            Message::Removed1 => 58,
            Message::Removed2 => 59,
            Message::GetHostInfo => 60,
            Message::GetSetting => 61,
            Message::GetDriverFullPathName => 62,
            Message::GetLogo => 63,
            Message::GetAvailableLogoType => 64,
            Message::RelayRecord => 65,
            Message::SilentMode => 66,
            Message::SetWindowMessageCallback => 67,
            Message::RegisterController => 68,
            Message::OnControllerButtonDown => 69,
            Message::GetControllerSettings => 70,
            Message::GetEPGEventInfo => 71,
            Message::FreeEPGEventInfo => 72,
            Message::GetEPGEventList => 73,
            Message::FreeEPGEventList => 74,
            Message::EnumDriver => 75,
            Message::GetDriverTuningSpaceList => 76,
            Message::FreeDriverTuningSpaceList => 77,
            Message::EnableProgramGuideEvent => 78,
            Message::RegisterProgramGuideCommand => 79,
            Message::GetStyleValue => 80,
            Message::ThemeDrawBackground => 81,
            Message::ThemeDrawText => 82,
            Message::ThemeDrawIcon => 83,
            Message::GetEPGCaptureStatus => 84,
            Message::GetAppCommandInfo => 85,
            Message::GetAppCommandCount => 86,
            Message::GetVideoStreamCount => 87,
            Message::GetVideoStream => 88,
            Message::SetVideoStream => 89,
            Message::GetLog => 90,
            Message::GetLogCount => 91,
            Message::RegisterPluginCommand => 92,
            Message::SetPluginCommandState => 93,
            Message::PluginCommandNotify => 94,
            Message::RegisterPluginIcon => 95,
            Message::RegisterStatusItem => 96,
            Message::SetStatusItem => 97,
            Message::GetStatusItemInfo => 98,
            Message::StatusItemNotify => 99,
            Message::RegisterTSProcessor => 100,
            Message::RegisterPanelItem => 101,
            Message::SetPanelItem => 102,
            Message::GetPanelItemInfo => 103,
            Message::SelectChannel => 104,
            Message::GetFavoriteList => 105,
            Message::FreeFavoriteList => 106,
            Message::GetOneSegMode => 107,
            Message::SetOneSegMode => 108,
            Message::GetDPI => 109,
            Message::GetFont => 110,
            Message::ShowDialog => 111,
            Message::ConvertTime => 112,
            Message::SetVideoStreamCallback => 113,
            Message::GetVarStringContext => 114,
            Message::FreeVarStringContext => 115,
            Message::FormatVarString => 116,
            Message::RegisterVariable => 117,
            Message::Trailer => 118,
        }
    }
}
/// One outbound word: a plain value, or something lent to the host by address
/// for the length of the call.
#[derive(Debug)]
pub enum Param {
    /// A plain word.
    Word(isize),
    /// A record the host may fill in; it comes back in the call's result.
    Record(HostRecord),
    /// A terminated text the host may read during the call.
    Text(WideString),
    /// A buffer of `capacity` units at `address`, obtained from the host
    /// allocator; what it holds after the call comes back in the call's result.
    Buffer { address: usize, capacity: usize },
    /// A block at `address` from the host allocator, into which `units` are
    /// written before the call; the host keeps the block.
    Filled { address: usize, units: Vec<u16> },
}

/// A record lent to the host by address.
#[derive(Clone, Copy, Debug)]
pub enum HostRecord {
    /// A channel record.
    ChannelInfo(ChannelInfo),
    /// A service record.
    ServiceInfo(ServiceInfo),
    /// A single 32-bit count.
    Count(i32),
}

/// One outbound call: the message and its two words.
#[derive(Debug)]
pub struct Request {
    pub message: Message,
    pub param1: Param,
    pub param2: Param,
}

/// What came back from one outbound call.
#[derive(Debug)]
pub struct CallResult {
    /// The one-word answer.
    pub result: isize,
    /// The lent record, as the host left it.
    pub record: Option<HostRecord>,
    /// The lent buffer's units, as the host left them.
    pub units: Option<Vec<u16>>,
}

/// Why an outbound operation did not complete.
#[derive(PartialEq, Eq, Structural, Clone, Copy, Debug)]
pub enum ApiError {
    /// The host has not set up the channel.
    ChannelNotReady,
    /// A lent record did not come back in the layout this library declared.
    SizeMismatch,
    /// The host allocator gave no memory.
    AllocationFailure,
}

/// The channel the host hands the plugin: the callback that carries every
/// outbound call, the host's main window, and a word for the plugin's own use.
pub struct PluginParam<F> {
    /// The host callback; `None` until the host has set the channel up.
    pub callback: Option<F>,
    /// The host's main window.
    pub hwnd_app: WindowHandle,
    /// A word the plugin may use as it likes.
    pub client_data: usize,
}

impl<F: Fn(Request) -> CallResult> PluginParam<F> {
    /// The host has set the channel up.
    pub open spec fn ready(&self) -> bool {
        self.callback is Some
    }

    /// The callback accepts every request.
    pub open spec fn wf(&self) -> bool {
        self.callback matches Some(cb) ==> forall|q: Request| #[trigger] cb.requires((q,))
    }

    /// `out` is an answer the host may give to `q` over this channel.
    pub open spec fn answers(&self, q: Request, out: CallResult) -> bool {
        self.callback matches Some(cb) && cb.ensures((q,), out)
    }

    /// `r` is what a call of `q` whose answer is a truth value may give.
    pub open spec fn bool_answer(&self, q: Request, r: Result<bool, ApiError>) -> bool {
        &&& !self.ready() ==> r == Err::<bool, ApiError>(ApiError::ChannelNotReady)
        &&& self.ready() ==> exists|out: CallResult|
            self.answers(q, out) && r == Ok::<bool, ApiError>(out.result != 0)
    }

    /// Makes one outbound call and hands back what came back. Fails only on a
    /// channel the host has not set up.
    pub fn send_message(&self, message: Message, param1: Param, param2: Param) -> (r: Result<
        CallResult,
        ApiError,
    >)
        requires
            self.wf(),
        ensures
            !self.ready() ==> r == Err::<CallResult, ApiError>(ApiError::ChannelNotReady),
            self.ready() ==> (r matches Ok(out) && self.answers(
                Request { message, param1, param2 },
                out,
            )),
    {
        match &self.callback {
            None => Err(ApiError::ChannelNotReady),
            Some(cb) => {
                let out = cb(Request { message, param1, param2 });
                Ok(out)
            },
        }
    }

    /// Makes one outbound call whose answer is a truth value: any word but zero
    /// is true.
    pub fn send_message_bool(&self, message: Message, param1: Param, param2: Param) -> (r: Result<
        bool,
        ApiError,
    >)
        requires
            self.wf(),
        ensures
            self.bool_answer(Request { message, param1, param2 }, r),
    {
        match self.send_message(message, param1, param2) {
            Ok(out) => Ok(out.result != 0),
            Err(e) => Err(e),
        }
    }
}

} // verus!
