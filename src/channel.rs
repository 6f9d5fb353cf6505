use vstd::prelude::*;
use crate::win32::FixedWideString;

verus! {

/// Byte length of the host's channel record in the layout this library targets.
pub const CHANNEL_INFO_SIZE: u32 = 288;

/// A channel, as the host describes it.
#[derive(Clone, Copy, Debug)]
pub struct ChannelInfo {
    /// Byte length of the record as its sender declared it.
    pub size: u32,
    /// Tuning space (driver index).
    pub space: i32,
    /// Channel (driver index).
    pub channel: i32,
    /// Remote control key.
    pub remote_control_key_id: i32,
    /// Network identifier.
    pub network_id: u16,
    /// Transport stream identifier.
    pub transport_stream_id: u16,
    /// Network name.
    pub network_name: FixedWideString<32>,
    /// Transport stream name.
    pub transport_stream_name: FixedWideString<32>,
    /// Channel name.
    pub channel_name: FixedWideString<64>,
    /// Physical channel number; zero when unknown.
    pub physical_channel: i32,
    /// Service index (no longer meaningful).
    pub service_index: u16,
    /// Service identifier from the channel file.
    pub service_id: u16,
    /// Bits of [`ChannelFlag`].
    pub flags: u32,
}

impl ChannelInfo {
    /// A record that declares this library's layout and holds nothing else.
    pub open spec fn is_blank(&self) -> bool {
        &&& self.size == CHANNEL_INFO_SIZE
        &&& self.space == 0 && self.channel == 0 && self.remote_control_key_id == 0
        &&& self.network_id == 0 && self.transport_stream_id == 0
        &&& forall|i: int| 0 <= i < 32 ==> self.network_name.0@[i] == 0
        &&& forall|i: int| 0 <= i < 32 ==> self.transport_stream_name.0@[i] == 0
        &&& forall|i: int| 0 <= i < 64 ==> self.channel_name.0@[i] == 0
        &&& self.network_name.text().len() == 0
        &&& self.transport_stream_name.text().len() == 0
        &&& self.channel_name.text().len() == 0
        &&& self.physical_channel == 0 && self.service_index == 0 && self.service_id == 0
        &&& self.flags == 0
    }

    /// A blank record that declares this library's layout.
    pub fn new() -> (r: ChannelInfo)
        ensures
            r.is_blank(),
            r.size == CHANNEL_INFO_SIZE,
            r.space == 0 && r.channel == 0 && r.remote_control_key_id == 0,
            r.network_id == 0 && r.transport_stream_id == 0,
            forall|i: int| 0 <= i < 32 ==> r.network_name.0@[i] == 0,
            forall|i: int| 0 <= i < 32 ==> r.transport_stream_name.0@[i] == 0,
            forall|i: int| 0 <= i < 64 ==> r.channel_name.0@[i] == 0,
            r.network_name.text().len() == 0,
            r.transport_stream_name.text().len() == 0,
            r.channel_name.text().len() == 0,
            r.physical_channel == 0 && r.service_index == 0 && r.service_id == 0 && r.flags == 0,
    {
        ChannelInfo {
            size: CHANNEL_INFO_SIZE,
            space: 0,
            channel: 0,
            remote_control_key_id: 0,
            network_id: 0,
            transport_stream_id: 0,
            network_name: FixedWideString::<32>::empty(),
            transport_stream_name: FixedWideString::<32>::empty(),
            channel_name: FixedWideString::<64>::empty(),
            physical_channel: 0,
            service_index: 0,
            service_id: 0,
            flags: 0,
        }
    }
}

/// Flags of a channel.
#[derive(PartialEq, Eq, Structural, Clone, Copy, Debug)]
pub enum ChannelFlag {
    /// The channel is disabled.
    Disabled,
}

impl ChannelFlag {
    /// The bit of each variant.
    pub open spec fn spec_bits(&self) -> u32 {
        match self {
            ChannelFlag::Disabled => 0x0000_0001,
        }
    }

    /// The bit the host uses for this variant.
    #[verifier::when_used_as_spec(spec_bits)]
    pub fn bits(&self) -> (r: u32)
        ensures
            r == self.spec_bits(),
    {
        match self {
            ChannelFlag::Disabled => 0x0000_0001,
        }
    }
}
impl Default for ChannelInfo {
    /// A blank record that declares this library's layout.
    fn default() -> (r: ChannelInfo)
        ensures
            r.is_blank(),
    {
        ChannelInfo::new()
    }
}

} // verus!
