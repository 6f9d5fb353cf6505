//! What a plugin implements to answer host notifications.
use vstd::prelude::*;
use crate::command::DrawCommandIconInfo;
use crate::filter_graph::FilterGraphInfo;
use crate::panel::PanelItemEventInfo;
use crate::program_guide::{
    ProgramGuideCommandParam, ProgramGuideInitializeMenuInfo, ProgramGuideProgramDrawBackgroundInfo,
    ProgramGuideProgramInfo, ProgramGuideProgramInitializeMenuInfo,
};
use crate::record::{RecordStatus, StartRecordInfo};
use crate::status_item::{StatusItemDrawInfo, StatusItemEventInfo, StatusItemMouseEventInfo};
use crate::stereo_mode::StereoMode;
use crate::variable::GetVariableInfo;
use crate::win32::{WideStringPtr, WindowHandle};

verus! {

/// What a plugin does on each host notification. Every method has an answer
/// of its own for a plugin that does not implement it.
#[allow(unused_variables)]
pub trait TVTestEventHandler {
    /// The plugin was enabled or disabled; `false` refuses the change.
    fn on_plugin_enable(&self, enable: bool) -> (r: bool)
        default_ensures
            r == false,
    {
        false
    }

    /// Show the settings; `true` when they were accepted.
    fn on_plugin_settings(&self, owner: WindowHandle) -> (r: bool)
        default_ensures
            r == false,
    {
        false
    }

    /// The channel changed.
    fn on_channel_change(&self) -> (r: bool)
        default_ensures
            r == false,
    {
        false
    }

    /// The service changed.
    fn on_service_change(&self) -> (r: bool)
        default_ensures
            r == false,
    {
        false
    }

    /// The tuner driver changed.
    fn on_driver_change(&self) -> (r: bool)
        default_ensures
            r == false,
    {
        false
    }

    /// The set of services changed.
    fn on_service_update(&self) -> (r: bool)
        default_ensures
            r == false,
    {
        false
    }

    /// The recording state changed.
    fn on_record_status_change(&self, status: RecordStatus) -> (r: bool)
        default_ensures
            r == false,
    {
        false
    }

    /// Full-screen display was entered or left.
    fn on_fullscreen_change(&self, fullscreen: bool) -> (r: bool)
        default_ensures
            r == false,
    {
        false
    }

    /// Preview display was turned on or off.
    fn on_preview_change(&self, preview: bool) -> (r: bool)
        default_ensures
            r == false,
    {
        false
    }

    /// The volume changed.
    fn on_volume_change(&self, volume: i32, mute: bool) -> (r: bool)
        default_ensures
            r == false,
    {
        false
    }

    /// The stereo mode changed.
    fn on_stereo_mode_change(&self, stereo_mode: StereoMode) -> (r: bool)
        default_ensures
            r == false,
    {
        false
    }

    /// The colour settings changed.
    fn on_color_change(&self) -> (r: bool)
        default_ensures
            r == false,
    {
        false
    }

    /// Stand-by was entered or left.
    fn on_standby(&self, standby: bool) -> (r: bool)
        default_ensures
            r == false,
    {
        false
    }

    /// A command was chosen.
    fn on_command(&self, id: i32) -> (r: bool)
        default_ensures
            r == false,
    {
        false
    }

    /// A second instance was started with this command line, lent for the call.
    fn on_execute(&self, command_line: WideStringPtr) -> (r: bool)
        default_ensures
            r == false,
    {
        false
    }

    /// The host was reset.
    fn on_reset(&self) -> (r: bool)
        default_ensures
            r == false,
    {
        false
    }

    /// The status counters were reset.
    fn on_status_reset(&self) -> (r: bool)
        default_ensures
            r == false,
    {
        false
    }

    /// The audio stream changed.
    fn on_audio_stream_change(&self, stream: i32) -> (r: bool)
        default_ensures
            r == false,
    {
        false
    }

    /// The settings changed.
    fn on_settings_change(&self) -> (r: bool)
        default_ensures
            r == false,
    {
        false
    }

    /// The host window is closing.
    fn on_close(&self) -> (r: bool)
        default_ensures
            r == false,
    {
        false
    }

    /// A recording is starting.
    fn on_start_record(&self, info: &StartRecordInfo) -> (r: bool)
        default_ensures
            r == false,
    {
        false
    }

    /// The recording moved on to this file, whose name is lent for the call.
    fn on_relay_record(&self, file_name: WideStringPtr) -> (r: bool)
        default_ensures
            r == false,
    {
        false
    }

    /// The controller target is being set.
    fn on_controller_focus(&self, hwnd: WindowHandle) -> (r: bool)
        default_ensures
            r == false,
    {
        false
    }

    /// The host finished starting up.
    fn on_startup_done(&self) {
    }

    /// The programme guide is initialising.
    fn on_program_guide_initialize(&self, hwnd: WindowHandle) -> (r: bool)
        default_ensures
            r == true,
    {
        true
    }

    /// The programme guide is closing.
    fn on_program_guide_finalize(&self, hwnd: WindowHandle) -> (r: bool)
        default_ensures
            r == true,
    {
        true
    }

    /// A programme guide command runs.
    fn on_program_guide_command(&self, command: u32, param: &ProgramGuideCommandParam) -> (r: bool)
        default_ensures
            r == false,
    {
        false
    }

    /// The programme guide menu is built; the number of items added.
    fn on_program_guide_initialize_menu(&self, info: &ProgramGuideInitializeMenuInfo) -> (r: i32)
        default_ensures
            r == 0,
    {
        0
    }

    /// A programme guide menu item was chosen.
    fn on_program_guide_menu_selected(&self, command: u32) -> (r: bool)
        default_ensures
            r == false,
    {
        false
    }

    /// Draw a programme's background; `true` when drawn.
    fn on_program_guide_program_draw_background(&self, program_info: &ProgramGuideProgramInfo, info: &ProgramGuideProgramDrawBackgroundInfo) -> (r: bool)
        default_ensures
            r == false,
    {
        false
    }

    /// A programme's menu is built; the number of items added.
    fn on_program_guide_program_initialize_menu(&self, program_info: &ProgramGuideProgramInfo, info: &ProgramGuideProgramInitializeMenuInfo) -> (r: i32)
        default_ensures
            r == 0,
    {
        0
    }

    /// A programme's menu item was chosen.
    fn on_program_guide_program_menu_selected(&self, program_info: &ProgramGuideProgramInfo, command: u32) -> (r: bool)
        default_ensures
            r == false,
    {
        false
    }

    /// The filter graph starts initialising.
    fn on_filter_graph_initialize(&self, info: &FilterGraphInfo) {
    }

    /// The filter graph finished initialising.
    fn on_filter_graph_initialized(&self, info: &FilterGraphInfo) {
    }

    /// The filter graph starts shutting down.
    fn on_filter_graph_finalize(&self, info: &FilterGraphInfo) {
    }

    /// The filter graph finished shutting down.
    fn on_filter_graph_finalized(&self, info: &FilterGraphInfo) {
    }

    /// Draw a command icon; `true` when drawn.
    fn on_draw_command_icon(&self, info: &DrawCommandIconInfo) -> (r: bool)
        default_ensures
            r == false,
    {
        false
    }

    /// Draw a status item; `true` when drawn.
    fn on_status_item_draw(&self, info: &StatusItemDrawInfo) -> (r: bool)
        default_ensures
            r == false,
    {
        false
    }

    /// A status item is notified.
    fn on_status_item_notify(&self, info: &StatusItemEventInfo) -> (r: bool)
        default_ensures
            r == false,
    {
        false
    }

    /// A mouse action hit a status item.
    fn on_status_item_mouse_event(&self, info: &StatusItemMouseEventInfo) -> (r: bool)
        default_ensures
            r == false,
    {
        false
    }

    /// A panel item is notified.
    fn on_panel_item_notify(&self, info: &PanelItemEventInfo) -> (r: bool)
        default_ensures
            r == false,
    {
        false
    }

    /// The favourite channels changed.
    fn on_favorites_changed(&self) {
    }

    /// One-segment mode was turned on or off.
    fn on_one_seg_mode_changed(&self, mode: bool) {
    }

    /// The host asks for a variable; `true` when it was given.
    fn on_get_variable(&self, info: &GetVariableInfo) -> (r: bool)
        default_ensures
            r == false,
    {
        false
    }
}

} // verus!
