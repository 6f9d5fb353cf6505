use vstd::prelude::*;
use crate::win32::WideStringPtr;

verus! {

/// How a programme is looked up in the EPG.
#[derive(PartialEq, Eq, Structural, Clone, Copy, Debug)]
pub enum EpgEventQueryMethod {
    /// By event identifier.
    EventId,
    /// By time.
    Time,
}

impl EpgEventQueryMethod {
    /// The wire value of each variant.
    pub open spec fn spec_value(&self) -> u8 {
        match self {
            EpgEventQueryMethod::EventId => 0,
            EpgEventQueryMethod::Time => 1,
        }
    }

    /// The wire value the host uses for this variant.
    #[verifier::when_used_as_spec(spec_value)]
    pub fn value(&self) -> (r: u8)
        ensures
            r == self.spec_value(),
    {
        match self {
            EpgEventQueryMethod::EventId => 0,
            EpgEventQueryMethod::Time => 1,
        }
    }

    /// The variant with a given wire value, if any.
    pub open spec fn spec_from_value(v: u8) -> Option<EpgEventQueryMethod> {
        if v == 0 {
            Some(EpgEventQueryMethod::EventId)
        } else if v == 1 {
            Some(EpgEventQueryMethod::Time)
        } else {
            None
        }
    }

    /// Reads a variant from its wire value; a value that names none gives `None`.
    pub fn from_value(v: u8) -> (r: Option<EpgEventQueryMethod>)
        ensures
            r == Self::spec_from_value(v),
            r matches Some(e) ==> e.spec_value() == v,
    {
        if v == 0 {
            Some(EpgEventQueryMethod::EventId)
        } else if v == 1 {
            Some(EpgEventQueryMethod::Time)
        } else {
            None
        }
    }
}
#[derive(PartialEq, Eq, Structural, Clone, Copy, Debug)]
/// The video of a programme.
pub struct EpgEventVideoInfo {
    /// `stream_content`.
    pub stream_content: u8,
    /// `component_type`.
    pub component_type: u8,
    /// `component_tag`.
    pub component_tag: u8,
    /// Reserved.
    pub reserved: u8,
    /// Language code.
    pub language_code: u32,
    /// Text; null for none.
    pub text: WideStringPtr,
}

/// Flags of a programme's audio.
#[derive(PartialEq, Eq, Structural, Clone, Copy, Debug)]
pub enum EpgEventAudioFlag {
    /// Two languages.
    Multilingual,
    /// Main audio.
    MainComponent,
}

impl EpgEventAudioFlag {
    /// The bit of each variant.
    pub open spec fn spec_bits(&self) -> u8 {
        match self {
            EpgEventAudioFlag::Multilingual => 0x01,
            EpgEventAudioFlag::MainComponent => 0x02,
        }
    }

    /// The bit the host uses for this variant.
    #[verifier::when_used_as_spec(spec_bits)]
    pub fn bits(&self) -> (r: u8)
        ensures
            r == self.spec_bits(),
    {
        match self {
            EpgEventAudioFlag::Multilingual => 0x01,
            EpgEventAudioFlag::MainComponent => 0x02,
        }
    }
}
#[derive(PartialEq, Eq, Structural, Clone, Copy, Debug)]
/// The genre of a programme.
pub struct EpgEventContentInfo {
    /// Top-level genre.
    pub content_nibble_level1: u8,
    /// Second-level genre.
    pub content_nibble_level2: u8,
    pub user_nibble1: u8,
    pub user_nibble2: u8,
}

#[derive(PartialEq, Eq, Structural, Clone, Copy, Debug)]
/// A programme of an event group.
pub struct EpgGroupEventInfo {
    /// Network identifier.
    pub network_id: u16,
    /// Transport stream identifier.
    pub transport_stream_id: u16,
    /// Service identifier.
    pub service_id: u16,
    /// Event identifier.
    pub event_id: u16,
}

/// An event group.
#[derive(Clone, Copy, Debug)]
pub struct EpgEventGroupInfo {
    /// Group type.
    pub group_type: u8,
    /// Number of programmes in the list.
    pub event_list_length: u8,
    /// Reserved.
    pub reserved: [u8; 6],
    /// Address of the programme list.
    pub event_list: usize,
}

/// How far the EPG of a service was captured.
#[derive(PartialEq, Eq, Structural, Clone, Copy, Debug)]
pub enum EpgCaptureStatus {
    /// Basic schedule complete.
    ScheduleBasicCompleted,
    /// Extended schedule complete.
    ScheduleExtendedCompleted,
    /// Basic schedule present.
    HasScheduleBasic,
    /// Extended schedule present.
    HasScheduleExtended,
}

impl EpgCaptureStatus {
    /// The bit of each variant.
    pub open spec fn spec_bits(&self) -> u32 {
        match self {
            EpgCaptureStatus::ScheduleBasicCompleted => 0x0000_0001,
            EpgCaptureStatus::ScheduleExtendedCompleted => 0x0000_0002,
            EpgCaptureStatus::HasScheduleBasic => 0x0000_0004,
            EpgCaptureStatus::HasScheduleExtended => 0x0000_0008,
        }
    }

    /// The bit the host uses for this variant.
    #[verifier::when_used_as_spec(spec_bits)]
    pub fn bits(&self) -> (r: u32)
        ensures
            r == self.spec_bits(),
    {
        match self {
            EpgCaptureStatus::ScheduleBasicCompleted => 0x0000_0001,
            EpgCaptureStatus::ScheduleExtendedCompleted => 0x0000_0002,
            EpgCaptureStatus::HasScheduleBasic => 0x0000_0004,
            EpgCaptureStatus::HasScheduleExtended => 0x0000_0008,
        }
    }
}
} // verus!
