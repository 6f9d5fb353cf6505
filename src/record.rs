use vstd::prelude::*;
use crate::win32::WideStringPtr;

verus! {

/// Which fields of a recording description are set.
#[derive(PartialEq, Eq, Structural, Clone, Copy, Debug)]
pub enum RecordMask {
    /// The flags are set.
    Flags,
    /// The file name is set.
    Filename,
    /// The start time is set.
    StartTime,
    /// The stop time is set.
    StopTime,
}

impl RecordMask {
    /// The bit of each variant.
    pub open spec fn spec_bits(&self) -> u32 {
        match self {
            RecordMask::Flags => 0x0000_0001,
            RecordMask::Filename => 0x0000_0002,
            RecordMask::StartTime => 0x0000_0004,
            RecordMask::StopTime => 0x0000_0008,
        }
    }

    /// The bit the host uses for this variant.
    #[verifier::when_used_as_spec(spec_bits)]
    pub fn bits(&self) -> (r: u32)
        ensures
            r == self.spec_bits(),
    {
        match self {
            RecordMask::Flags => 0x0000_0001,
            RecordMask::Filename => 0x0000_0002,
            RecordMask::StartTime => 0x0000_0004,
            RecordMask::StopTime => 0x0000_0008,
        }
    }
}
/// Flags of a recording description.
#[derive(PartialEq, Eq, Structural, Clone, Copy, Debug)]
pub enum RecordFlag {
    /// Cancel the recording.
    Cancel,
    /// Times are in UTC.
    UTC,
}

impl RecordFlag {
    /// The bit of each variant.
    pub open spec fn spec_bits(&self) -> u32 {
        match self {
            RecordFlag::Cancel => 0x1000_0000,
            RecordFlag::UTC => 0x0000_0001,
        }
    }

    /// The bit the host uses for this variant.
    #[verifier::when_used_as_spec(spec_bits)]
    pub fn bits(&self) -> (r: u32)
        ensures
            r == self.spec_bits(),
    {
        match self {
            RecordFlag::Cancel => 0x1000_0000,
            RecordFlag::UTC => 0x0000_0001,
        }
    }
}
/// How the start of a recording is given.
#[derive(PartialEq, Eq, Structural, Clone, Copy, Debug)]
pub enum RecordStart {
    /// Not given.
    NotSpecified,
    /// At a time.
    Time,
    /// After a delay.
    Delay,
}

impl RecordStart {
    /// The wire value of each variant.
    pub open spec fn spec_value(&self) -> u32 {
        match self {
            RecordStart::NotSpecified => 0,
            RecordStart::Time => 1,
            RecordStart::Delay => 2,
        }
    }

    /// The wire value the host uses for this variant.
    #[verifier::when_used_as_spec(spec_value)]
    pub fn value(&self) -> (r: u32)
        ensures
            r == self.spec_value(),
    {
        match self {
            RecordStart::NotSpecified => 0,
            RecordStart::Time => 1,
            RecordStart::Delay => 2,
        }
    }

    /// The variant with a given wire value, if any.
    pub open spec fn spec_from_value(v: u32) -> Option<RecordStart> {
        if v == 0 {
            Some(RecordStart::NotSpecified)
        } else if v == 1 {
            Some(RecordStart::Time)
        } else if v == 2 {
            Some(RecordStart::Delay)
        } else {
            None
        }
    }

    /// Reads a variant from its wire value; a value that names none gives `None`.
    pub fn from_value(v: u32) -> (r: Option<RecordStart>)
        ensures
            r == Self::spec_from_value(v),
            r matches Some(e) ==> e.spec_value() == v,
    {
        if v == 0 {
            Some(RecordStart::NotSpecified)
        } else if v == 1 {
            Some(RecordStart::Time)
        } else if v == 2 {
            Some(RecordStart::Delay)
        } else {
            None
        }
    }
}
/// How the end of a recording is given.
#[derive(PartialEq, Eq, Structural, Clone, Copy, Debug)]
pub enum RecordStop {
    /// Not given.
    NotSpecified,
    /// At a time.
    Time,
    /// After a duration.
    Duration,
}

impl RecordStop {
    /// The wire value of each variant.
    pub open spec fn spec_value(&self) -> u32 {
        match self {
            RecordStop::NotSpecified => 0,
            RecordStop::Time => 1,
            RecordStop::Duration => 2,
        }
    }

    /// The wire value the host uses for this variant.
    #[verifier::when_used_as_spec(spec_value)]
    pub fn value(&self) -> (r: u32)
        ensures
            r == self.spec_value(),
    {
        match self {
            RecordStop::NotSpecified => 0,
            RecordStop::Time => 1,
            RecordStop::Duration => 2,
        }
    }

    /// The variant with a given wire value, if any.
    pub open spec fn spec_from_value(v: u32) -> Option<RecordStop> {
        if v == 0 {
            Some(RecordStop::NotSpecified)
        } else if v == 1 {
            Some(RecordStop::Time)
        } else if v == 2 {
            Some(RecordStop::Duration)
        } else {
            None
        }
    }

    /// Reads a variant from its wire value; a value that names none gives `None`.
    pub fn from_value(v: u32) -> (r: Option<RecordStop>)
        ensures
            r == Self::spec_from_value(v),
            r matches Some(e) ==> e.spec_value() == v,
    {
        if v == 0 {
            Some(RecordStop::NotSpecified)
        } else if v == 1 {
            Some(RecordStop::Time)
        } else if v == 2 {
            Some(RecordStop::Duration)
        } else {
            None
        }
    }
}
/// The recording state.
#[derive(PartialEq, Eq, Structural, Clone, Copy, Debug)]
pub enum RecordStatus {
    /// Not recording.
    NotRecording,
    /// Recording.
    Recording,
    /// Recording, paused.
    Paused,
}

impl RecordStatus {
    /// The wire value of each variant.
    pub open spec fn spec_value(&self) -> u32 {
        match self {
            RecordStatus::NotRecording => 0,
            RecordStatus::Recording => 1,
            RecordStatus::Paused => 2,
        }
    }

    /// The wire value the host uses for this variant.
    #[verifier::when_used_as_spec(spec_value)]
    pub fn value(&self) -> (r: u32)
        ensures
            r == self.spec_value(),
    {
        match self {
            RecordStatus::NotRecording => 0,
            RecordStatus::Recording => 1,
            RecordStatus::Paused => 2,
        }
    }

    /// The variant with a given wire value, if any.
    pub open spec fn spec_from_value(v: u32) -> Option<RecordStatus> {
        if v == 0 {
            Some(RecordStatus::NotRecording)
        } else if v == 1 {
            Some(RecordStatus::Recording)
        } else if v == 2 {
            Some(RecordStatus::Paused)
        } else {
            None
        }
    }

    /// Reads a variant from its wire value; a value that names none gives `None`.
    pub fn from_value(v: u32) -> (r: Option<RecordStatus>)
        ensures
            r == Self::spec_from_value(v),
            r matches Some(e) ==> e.spec_value() == v,
    {
        if v == 0 {
            Some(RecordStatus::NotRecording)
        } else if v == 1 {
            Some(RecordStatus::Recording)
        } else if v == 2 {
            Some(RecordStatus::Paused)
        } else {
            None
        }
    }
}
/// Flags for reading the recording state.
#[derive(PartialEq, Eq, Structural, Clone, Copy, Debug)]
pub enum RecordStatusFlag {
    /// Give times in UTC.
    UTC,
}

impl RecordStatusFlag {
    /// The bit of each variant.
    pub open spec fn spec_bits(&self) -> u32 {
        match self {
            RecordStatusFlag::UTC => 0x0000_0001,
        }
    }

    /// The bit the host uses for this variant.
    #[verifier::when_used_as_spec(spec_bits)]
    pub fn bits(&self) -> (r: u32)
        ensures
            r == self.spec_bits(),
    {
        match self {
            RecordStatusFlag::UTC => 0x0000_0001,
        }
    }
}
/// Who started a recording.
#[derive(PartialEq, Eq, Structural, Clone, Copy, Debug)]
pub enum RecordClient {
    /// The user.
    User,
    /// The command line.
    CommandLine,
    /// A plugin.
    Plugin,
}

impl RecordClient {
    /// The wire value of each variant.
    pub open spec fn spec_value(&self) -> u32 {
        match self {
            RecordClient::User => 0,
            RecordClient::CommandLine => 1,
            RecordClient::Plugin => 2,
        }
    }

    /// The wire value the host uses for this variant.
    #[verifier::when_used_as_spec(spec_value)]
    pub fn value(&self) -> (r: u32)
        ensures
            r == self.spec_value(),
    {
        match self {
            RecordClient::User => 0,
            RecordClient::CommandLine => 1,
            RecordClient::Plugin => 2,
        }
    }

    /// The variant with a given wire value, if any.
    pub open spec fn spec_from_value(v: u32) -> Option<RecordClient> {
        if v == 0 {
            Some(RecordClient::User)
        } else if v == 1 {
            Some(RecordClient::CommandLine)
        } else if v == 2 {
            Some(RecordClient::Plugin)
        } else {
            None
        }
    }

    /// Reads a variant from its wire value; a value that names none gives `None`.
    pub fn from_value(v: u32) -> (r: Option<RecordClient>)
        ensures
            r == Self::spec_from_value(v),
            r matches Some(e) ==> e.spec_value() == v,
    {
        if v == 0 {
            Some(RecordClient::User)
        } else if v == 1 {
            Some(RecordClient::CommandLine)
        } else if v == 2 {
            Some(RecordClient::Plugin)
        } else {
            None
        }
    }
}
/// Which fields of a recording start a plugin changed.
#[derive(PartialEq, Eq, Structural, Clone, Copy, Debug)]
pub enum StartRecordModified {
    /// The file name.
    Filename,
}

impl StartRecordModified {
    /// The bit of each variant.
    pub open spec fn spec_bits(&self) -> u32 {
        match self {
            StartRecordModified::Filename => 0x0000_0001,
        }
    }

    /// The bit the host uses for this variant.
    #[verifier::when_used_as_spec(spec_bits)]
    pub fn bits(&self) -> (r: u32)
        ensures
            r == self.spec_bits(),
    {
        match self {
            StartRecordModified::Filename => 0x0000_0001,
        }
    }
}
/// A recording that is about to start, as the host describes it.
#[derive(PartialEq, Eq, Structural, Clone, Copy, Debug)]
pub struct StartRecordInfo {
    /// Byte length of the record as its sender declared it.
    pub size: u32,
    /// Flags (unused by the host so far).
    pub flags: u32,
    /// Bits of [`StartRecordModified`]: the fields a plugin changed.
    pub modified: u32,
    /// Who started the recording.
    pub client: RecordClient,
    /// The file name.
    pub filename: WideStringPtr,
    /// Capacity of the file name buffer, in units.
    pub max_filename: u32,
    /// How the start is given.
    pub start_time_spec: RecordStart,
    /// The start time, in 100 ns ticks, when `start_time_spec` gives one.
    pub start_time: u64,
    /// How the end is given.
    pub stop_time_spec: RecordStop,
    /// The stop time in 100 ns ticks, or the duration in milliseconds.
    pub stop_time: u64,
}

/// Byte length of the host's recording record in the layout this library
/// targets: it holds an address, so it depends on the address width.
pub open spec fn record_info_size() -> u32 {
    if vstd::layout::size_of::<usize>() == 8 {
        64
    } else {
        56
    }
}

/// A recording, as read from or handed to the host.
#[derive(PartialEq, Eq, Structural, Clone, Copy, Debug)]
pub struct RecordInfo {
    /// Byte length of the record as its sender declared it.
    pub size: u32,
    /// Bits of [`RecordMask`]: which fields are set.
    pub mask: u32,
    /// Bits of [`RecordFlag`].
    pub flags: u32,
    /// File name; null for the default.
    pub filename: WideStringPtr,
    /// Capacity of the file name buffer, in units (when reading).
    pub max_filename: i32,
    /// When the recording was booked, in 100 ns ticks (when reading).
    pub reserve_time: u64,
    /// How the start is given.
    pub start_time_spec: RecordStart,
    /// The start time in 100 ns ticks, or the delay in milliseconds.
    pub start_time: u64,
    /// How the end is given.
    pub stop_time_spec: RecordStop,
    /// The stop time in 100 ns ticks, or the duration in milliseconds.
    pub stop_time: u64,
}

impl RecordInfo {
    /// A record that declares this library's layout and sets nothing.
    pub open spec fn is_blank(&self) -> bool {
        &&& self.size == record_info_size()
        &&& self.mask == 0 && self.flags == 0 && self.filename.0 == 0 && self.max_filename == 0
        &&& self.reserve_time == 0 && self.start_time == 0 && self.stop_time == 0
        &&& self.start_time_spec == RecordStart::NotSpecified
        &&& self.stop_time_spec == RecordStop::NotSpecified
    }

    /// A blank record that declares this library's layout.
    pub fn new() -> (r: RecordInfo)
        ensures
            r.is_blank(),
    {
        let size: u32 = if core::mem::size_of::<usize>() == 8 {
            64
        } else {
            56
        };
        RecordInfo {
            size,
            mask: 0,
            flags: 0,
            filename: WideStringPtr(0),
            max_filename: 0,
            reserve_time: 0,
            start_time_spec: RecordStart::NotSpecified,
            start_time: 0,
            stop_time_spec: RecordStop::NotSpecified,
            stop_time: 0,
        }
    }
}

impl Default for RecordInfo {
    /// A blank record that declares this library's layout.
    fn default() -> (r: RecordInfo)
        ensures
            r.is_blank(),
    {
        RecordInfo::new()
    }
}

} // verus!
