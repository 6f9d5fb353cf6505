use vstd::prelude::*;
use crate::win32::FixedWideString;

verus! {

/// The current service and how many there are.
#[derive(PartialEq, Eq, Structural, Clone, Copy, Debug)]
pub struct GetServiceInfo {
    /// Index of the current service.
    pub index: i32,
    /// Number of services.
    pub num_services: i32,
}

/// Byte length of the host's service record in the layout this library targets.
pub const SERVICE_INFO_SIZE: u32 = 92;

/// A service of the current channel.
#[derive(Clone, Copy, Debug)]
pub struct ServiceInfo {
    /// Byte length of the record as its sender declared it.
    pub size: u32,
    /// Service identifier.
    pub service_id: u16,
    /// PID of the video stream.
    pub video_pid: u16,
    /// Number of audio PIDs.
    pub num_audio_pids: i32,
    /// PIDs of the audio streams.
    pub audio_pids: [u16; 4],
    /// Service name.
    pub service_name: FixedWideString<32>,
    /// Audio component types.
    pub audio_component_type: [u8; 4],
    /// PID of the subtitle stream; zero when there is none.
    pub subtitle_pid: u16,
    /// Reserved.
    pub reserved: u16,
}

impl ServiceInfo {
    /// A record that declares this library's layout and holds nothing else.
    pub open spec fn is_blank(&self) -> bool {
        &&& self.size == SERVICE_INFO_SIZE
        &&& self.service_id == 0 && self.video_pid == 0 && self.num_audio_pids == 0
        &&& self.audio_pids@ == seq![0u16, 0u16, 0u16, 0u16]
        &&& forall|i: int| 0 <= i < 32 ==> self.service_name.0@[i] == 0
        &&& self.service_name.text().len() == 0
        &&& self.audio_component_type@ == seq![0u8, 0u8, 0u8, 0u8]
        &&& self.subtitle_pid == 0 && self.reserved == 0
    }

    /// A blank record that declares this library's layout.
    pub fn new() -> (r: ServiceInfo)
        ensures
            r.is_blank(),
            r.size == SERVICE_INFO_SIZE,
            r.service_id == 0 && r.video_pid == 0 && r.num_audio_pids == 0,
            r.audio_pids@ == seq![0u16, 0u16, 0u16, 0u16],
            forall|i: int| 0 <= i < 32 ==> r.service_name.0@[i] == 0,
            r.service_name.text().len() == 0,
            r.audio_component_type@ == seq![0u8, 0u8, 0u8, 0u8],
            r.subtitle_pid == 0 && r.reserved == 0,
    {
        let r = ServiceInfo {
            size: SERVICE_INFO_SIZE,
            service_id: 0,
            video_pid: 0,
            num_audio_pids: 0,
            audio_pids: [0u16; 4],
            service_name: FixedWideString::<32>::empty(),
            audio_component_type: [0u8; 4],
            subtitle_pid: 0,
            reserved: 0,
        };
        assert(r.audio_pids@ =~= seq![0u16, 0u16, 0u16, 0u16]);
        assert(r.audio_component_type@ =~= seq![0u8, 0u8, 0u8, 0u8]);
        r
    }
}

impl Default for ServiceInfo {
    /// A blank record that declares this library's layout.
    fn default() -> (r: ServiceInfo)
        ensures
            r.is_blank(),
    {
        ServiceInfo::new()
    }
}

} // verus!
