//! The typed operations a plugin calls on its host, the host allocator and the
//! two-phase text query among them.
use vstd::prelude::*;
use crate::channel::{ChannelInfo, CHANNEL_INFO_SIZE};
use crate::log::LogKind;
use crate::message::{ApiError, CallResult, HostRecord, Message, Param, PluginParam, Request};
use crate::service::{GetServiceInfo, ServiceInfo, SERVICE_INFO_SIZE};
use crate::tuning_space::GetTuningSpaceNameInfo;
use crate::version::{unpacked, Version};
use crate::win32::{
    bounded_text, decode_bounded, lemma_bounded_text_shorter, lemma_until_zero, make_lparam,
    lossy_utf16, until_zero, utf16_of, IntoRustString, IntoWideString, WideString, WindowHandle,
};

verus! {

/// The word that carries an address.
pub open spec fn address_word(a: usize) -> isize {
    a as isize
}

/// The address a word carries.
pub open spec fn word_address(w: isize) -> usize {
    w as usize
}

fn to_word(a: usize) -> (w: isize)
    ensures
        w == address_word(a),
{
    #[verifier::truncate]
    (a as isize)
}

fn to_address(w: isize) -> (a: usize)
    ensures
        a == word_address(w),
        (a == 0) == (w == 0),
{
    assert((w as usize == 0) == (w == 0)) by (bit_vector);
    #[verifier::truncate]
    (w as usize)
}

/// The request that asks the host allocator to resize `data` (a new block when
/// `None`) to `size` bytes; size zero frees.
pub open spec fn realloc_request(data: Option<usize>, size: isize) -> Request {
    Request {
        message: Message::MemoryAlloc,
        param1: Param::Word(
            match data {
                Some(a) => address_word(a),
                None => 0,
            },
        ),
        param2: Param::Word(size),
    }
}

/// The request that asks for the length of tuning space `index`'s name.
pub open spec fn name_probe(index: i32) -> Request {
    Request {
        message: Message::GetTuningSpaceName,
        param1: Param::Word(0),
        param2: Param::Word((index as u16 + 0xFFFFu16 * 0x1_0000) as isize),
    }
}

/// The request that fills a buffer of `capacity` units at `address` with
/// tuning space `index`'s name.
pub open spec fn name_fill(index: i32, address: usize, capacity: usize) -> Request {
    Request {
        message: Message::GetTuningSpaceName,
        param1: Param::Buffer { address, capacity },
        param2: Param::Word((index as u16 + (capacity as u16) * 0x1_0000) as isize),
    }
}

/// The capacity, in units, asked for a name of reported length `length`: the
/// length itself, within what the 16-bit capacity field holds.
pub open spec fn name_capacity(length: isize) -> usize {
    if length < 0xFFFF {
        length as usize
    } else {
        0xFFFF
    }
}

/// What the filled name buffer gives: the text before a terminator within the
/// capacity, or nothing when the host found no name or left no terminator there.
pub open spec fn name_outcome(
    fill: CallResult,
    capacity: usize,
    r: Result<Option<GetTuningSpaceNameInfo>, ApiError>,
) -> bool {
    if fill.result <= 0 {
        r matches Ok(None)
    } else {
        match fill.units {
            Some(u) => match bounded_text(u@, capacity as int) {
                Some(t) => r matches Ok(Some(info)) && info.length == fill.result as usize
                    && utf16_of(info.name@) == lossy_utf16(t) && utf16_of(info.name@).len() == t.len()
                    && t.len() < capacity,
                None => r matches Ok(None),
            },
            None => r matches Ok(None),
        }
    }
}

/// Bytes of host memory a log text takes: its UTF-16 units and the terminator.
pub open spec fn log_size(text: Seq<char>) -> int {
    (2 * (utf16_of(text).len() + 1)) as int
}

/// A name's capacity is never above its reported length.
pub proof fn lemma_name_capacity_within(length: isize)
    requires
        length > 0,
    ensures
        name_capacity(length) <= length,
        name_capacity(length) > 0,
{
}

/// What a channel query gives: nothing when the host answers false, the record
/// when it comes back in the declared layout, a size mismatch otherwise.
pub open spec fn channel_outcome(out: CallResult) -> Result<Option<ChannelInfo>, ApiError> {
    if out.result == 0 {
        Ok(None)
    } else {
        match out.record {
            Some(HostRecord::ChannelInfo(c)) => if c.size == CHANNEL_INFO_SIZE {
                Ok(Some(c))
            } else {
                Err(ApiError::SizeMismatch)
            },
            _ => Err(ApiError::SizeMismatch),
        }
    }
}

/// What a service query gives, in the same way as [`channel_outcome`].
pub open spec fn service_outcome(out: CallResult) -> Result<Option<ServiceInfo>, ApiError> {
    if out.result == 0 {
        Ok(None)
    } else {
        match out.record {
            Some(HostRecord::ServiceInfo(s)) => if s.size == SERVICE_INFO_SIZE {
                Ok(Some(s))
            } else {
                Err(ApiError::SizeMismatch)
            },
            _ => Err(ApiError::SizeMismatch),
        }
    }
}

/// The typed operations a plugin calls on its host, each one built on the
/// channel's single call.
pub struct PluginApi<F> {
    /// The channel.
    pub param: PluginParam<F>,
}

impl<F: Fn(Request) -> CallResult> PluginApi<F> {
    /// The channel's callback accepts every request.
    pub open spec fn wf(&self) -> bool {
        self.param.wf()
    }

    /// The host has set the channel up.
    pub open spec fn ready(&self) -> bool {
        self.param.ready()
    }

    /// `out` is an answer the host may give to `q`.
    pub open spec fn answers(&self, q: Request, out: CallResult) -> bool {
        self.param.answers(q, out)
    }

    /// The host's main window.
    pub fn get_app_window(&self) -> (r: WindowHandle)
        ensures
            r == self.param.hwnd_app,
    {
        self.param.hwnd_app
    }

    /// The host program's version.
    pub fn get_version(&self) -> (r: Result<Version, ApiError>)
        requires
            self.wf(),
        ensures
            !self.ready() ==> r == Err::<Version, ApiError>(ApiError::ChannelNotReady),
            self.ready() ==> exists|out: CallResult|
                self.answers(
                    Request {
                        message: Message::GetVersion,
                        param1: Param::Word(0),
                        param2: Param::Word(0),
                    },
                    out,
                ) && r == Ok::<Version, ApiError>(unpacked(out.result as u32)),
    {
        match self.param.send_message(Message::GetVersion, Param::Word(0), Param::Word(0)) {
            Ok(out) => {
                #[verifier::truncate]
                let code = out.result as u32;
                let v = Version::from_code(code);
                assert(self.answers(
                    Request { message: Message::GetVersion, param1: Param::Word(0), param2: Param::Word(0) },
                    out,
                ));
                Ok(v)
            },
            Err(e) => Err(e),
        }
    }

    /// Whether the host supports `message`.
    pub fn query_message(&self, message: Message) -> (r: Result<bool, ApiError>)
        requires
            self.wf(),
        ensures
            self.param.bool_answer(
                Request {
                    message: Message::QueryMessage,
                    param1: Param::Word(message.value() as isize),
                    param2: Param::Word(0),
                },
                r,
            ),
    {
        #[verifier::truncate]
        let id = message.value() as isize;
        self.param.send_message_bool(Message::QueryMessage, Param::Word(id), Param::Word(0))
    }

    /// Resizes a block of host memory, or makes a new one when `data` is `None`;
    /// a size of zero frees the block. The address of the block, or `None` when
    /// the host gave none.
    pub fn memory_realloc(&self, data: Option<usize>, size: isize) -> (r: Result<
        Option<usize>,
        ApiError,
    >)
        requires
            self.wf(),
        ensures
            !self.ready() ==> r == Err::<Option<usize>, ApiError>(ApiError::ChannelNotReady),
            self.ready() ==> exists|out: CallResult|
                self.answers(realloc_request(data, size), out) && r == Ok::<
                    Option<usize>,
                    ApiError,
                >(
                    if out.result == 0 {
                        None
                    } else {
                        Some(word_address(out.result))
                    },
                ),
            r matches Ok(Some(a)) ==> a != 0,
    {
        let param1 = match data {
            Some(a) => to_word(a),
            None => 0,
        };
        match self.param.send_message(Message::MemoryAlloc, Param::Word(param1), Param::Word(size)) {
            Ok(out) => {
                assert(self.answers(realloc_request(data, size), out));
                if out.result == 0 {
                    Ok(None)
                } else {
                    Ok(Some(to_address(out.result)))
                }
            },
            Err(e) => Err(e),
        }
    }

    /// A new block of `size` bytes of host memory; fails when the host gives none.
    pub fn memory_alloc(&self, size: isize) -> (r: Result<usize, ApiError>)
        requires
            self.wf(),
        ensures
            !self.ready() ==> r == Err::<usize, ApiError>(ApiError::ChannelNotReady),
            self.ready() ==> exists|out: CallResult|
                self.answers(realloc_request(None, size), out) && r == (if out.result == 0 {
                    Err::<usize, ApiError>(ApiError::AllocationFailure)
                } else {
                    Ok::<usize, ApiError>(word_address(out.result))
                }),
            r matches Ok(a) ==> a != 0,
    {
        match self.memory_realloc(None, size) {
            Ok(Some(a)) => {
                assert(a != 0);
                Ok(a)
            },
            Ok(None) => Err(ApiError::AllocationFailure),
            Err(e) => Err(e),
        }
    }

    /// Frees a block of host memory. Succeeds whatever the host answers; the
    /// address must not be used afterwards.
    pub fn memory_free(&self, data: usize) -> (r: Result<(), ApiError>)
        requires
            self.wf(),
        ensures
            !self.ready() ==> r == Err::<(), ApiError>(ApiError::ChannelNotReady),
            self.ready() ==> r == Ok::<(), ApiError>(()) && exists|out: CallResult|
                self.answers(realloc_request(Some(data), 0), out),
    {
        match self.memory_realloc(Some(data), 0) {
            Ok(_) => Ok(()),
            Err(e) => Err(e),
        }
    }

    /// Registers the plugin's notification callback, by its address. Only one
    /// can be registered; the null address unregisters.
    pub fn set_event_callback(&self, callback: usize) -> (r: Result<bool, ApiError>)
        requires
            self.wf(),
        ensures
            self.param.bool_answer(
                Request {
                    message: Message::SetEventCallback,
                    param1: Param::Word(address_word(callback)),
                    param2: Param::Word(0),
                },
                r,
            ),
    {
        self.param.send_message_bool(
            Message::SetEventCallback,
            Param::Word(to_word(callback)),
            Param::Word(0),
        )
    }

    /// Registers the notification callback together with the word the host
    /// hands back to it on each call.
    pub fn set_event_callback_with_client_data(&self, callback: usize, client_data: usize) -> (r:
        Result<bool, ApiError>)
        requires
            self.wf(),
        ensures
            self.param.bool_answer(
                Request {
                    message: Message::SetEventCallback,
                    param1: Param::Word(address_word(callback)),
                    param2: Param::Word(address_word(client_data)),
                },
                r,
            ),
    {
        self.param.send_message_bool(
            Message::SetEventCallback,
            Param::Word(to_word(callback)),
            Param::Word(to_word(client_data)),
        )
    }

    /// Unregisters the notification callback.
    pub fn unset_event_callback(&self) -> (r: Result<bool, ApiError>)
        requires
            self.wf(),
        ensures
            self.param.bool_answer(
                Request {
                    message: Message::SetEventCallback,
                    param1: Param::Word(0),
                    param2: Param::Word(0),
                },
                r,
            ),
    {
        self.param.send_message_bool(Message::SetEventCallback, Param::Word(0), Param::Word(0))
    }

    /// Lends a blank channel record with `message` and `param2`, and reads what
    /// came back.
    fn query_channel(&self, message: Message, param2: isize) -> (r: Result<Option<ChannelInfo>, ApiError>)
        requires
            self.wf(),
        ensures
            !self.ready() ==> r == Err::<Option<ChannelInfo>, ApiError>(ApiError::ChannelNotReady),
            self.ready() ==> exists|c: ChannelInfo, out: CallResult|
                c.is_blank() && self.answers(
                    Request {
                        message,
                        param1: Param::Record(HostRecord::ChannelInfo(c)),
                        param2: Param::Word(param2),
                    },
                    out,
                ) && r == channel_outcome(out),
    {
        let blank = ChannelInfo::new();
        match self.param.send_message(
            message,
            Param::Record(HostRecord::ChannelInfo(blank)),
            Param::Word(param2),
        ) {
            Ok(out) => {
                assert(self.answers(
                    Request {
                        message,
                        param1: Param::Record(HostRecord::ChannelInfo(blank)),
                        param2: Param::Word(param2),
                    },
                    out,
                ));
                if out.result == 0 {
                    return Ok(None);
                }
                match out.record {
                    Some(HostRecord::ChannelInfo(c)) => {
                        if c.size == CHANNEL_INFO_SIZE {
                            Ok(Some(c))
                        } else {
                            Err(ApiError::SizeMismatch)
                        }
                    },
                    _ => Err(ApiError::SizeMismatch),
                }
            },
            Err(e) => Err(e),
        }
    }

    /// The current channel; `None` when the host gives none.
    pub fn get_current_channel_info(&self) -> (r: Result<Option<ChannelInfo>, ApiError>)
        requires
            self.wf(),
        ensures
            !self.ready() ==> r == Err::<Option<ChannelInfo>, ApiError>(ApiError::ChannelNotReady),
            self.ready() ==> exists|c: ChannelInfo, out: CallResult|
                c.is_blank() && self.answers(
                    Request {
                        message: Message::GetCurrentChannelInfo,
                        param1: Param::Record(HostRecord::ChannelInfo(c)),
                        param2: Param::Word(0),
                    },
                    out,
                ) && r == channel_outcome(out),
    {
        self.query_channel(Message::GetCurrentChannelInfo, 0)
    }

    /// Channel `index` of tuning space `space`; `None` when the host gives none.
    pub fn get_channel_info(&self, space: i32, index: i32) -> (r: Result<Option<ChannelInfo>, ApiError>)
        requires
            self.wf(),
        ensures
            !self.ready() ==> r == Err::<Option<ChannelInfo>, ApiError>(ApiError::ChannelNotReady),
            self.ready() ==> exists|c: ChannelInfo, out: CallResult|
                c.is_blank() && self.answers(
                    Request {
                        message: Message::GetChannelInfo,
                        param1: Param::Record(HostRecord::ChannelInfo(c)),
                        param2: Param::Word((space as u16 + (index as u16) * 0x1_0000) as isize),
                    },
                    out,
                ) && r == channel_outcome(out),
    {
        let packed = make_lparam(space as u16, index as u16);
        self.query_channel(Message::GetChannelInfo, packed)
    }

    /// `r` is what switching channel with second word `param2` may give: the
    /// host is asked first whether it supports switching; on a host that does
    /// not, the answer is false and no switch is sent.
    pub open spec fn switch_answer(&self, space: i32, param2: isize, r: Result<bool, ApiError>) -> bool {
        &&& !self.ready() ==> r == Err::<bool, ApiError>(ApiError::ChannelNotReady)
        &&& self.ready() ==> exists|probe: CallResult|
            self.answers(
                Request {
                    message: Message::QueryMessage,
                    param1: Param::Word(Message::SetChannel.value() as isize),
                    param2: Param::Word(0),
                },
                probe,
            ) && (probe.result == 0 ==> r == Ok::<bool, ApiError>(false)) && (probe.result != 0
                ==> exists|out: CallResult|
                self.answers(
                    Request {
                        message: Message::SetChannel,
                        param1: Param::Word(space as isize),
                        param2: Param::Word(param2),
                    },
                    out,
                ) && r == Ok::<bool, ApiError>(out.result != 0))
    }

    fn switch_channel(&self, space: i32, param2: isize) -> (r: Result<bool, ApiError>)
        requires
            self.wf(),
        ensures
            self.switch_answer(space, param2, r),
    {
        match self.query_message(Message::SetChannel) {
            Ok(true) => self.param.send_message_bool(
                Message::SetChannel,
                Param::Word(space as isize),
                Param::Word(param2),
            ),
            Ok(false) => Ok(false),
            Err(e) => Err(e),
        }
    }

    /// Switches to channel `channel` of tuning space `space`, where the host
    /// supports switching.
    pub fn set_channel(&self, space: i32, channel: i32) -> (r: Result<bool, ApiError>)
        requires
            self.wf(),
        ensures
            self.switch_answer(space, channel as isize, r),
    {
        self.switch_channel(space, channel as isize)
    }

    /// Switches to a channel and service, where the host supports switching:
    /// the channel's low 16 bits and the service identifier share the second
    /// word.
    pub fn set_channel_with_service_id(&self, space: i32, channel: i32, service_id: u16) -> (r: Result<
        bool,
        ApiError,
    >)
        requires
            self.wf(),
        ensures
            self.switch_answer(space, (channel as u16 + service_id * 0x1_0000) as isize, r),
    {
        let packed = make_lparam(channel as u16, service_id);
        self.switch_channel(space, packed)
    }

    /// Index of the current service; `None` when the host reports an error.
    pub fn get_service_index(&self) -> (r: Result<Option<i32>, ApiError>)
        requires
            self.wf(),
        ensures
            !self.ready() ==> r == Err::<Option<i32>, ApiError>(ApiError::ChannelNotReady),
            self.ready() ==> exists|out: CallResult|
                self.answers(
                    Request { message: Message::GetService, param1: Param::Word(0), param2: Param::Word(0) },
                    out,
                ) && r == Ok::<Option<i32>, ApiError>(
                    if out.result == -1 {
                        None
                    } else {
                        Some(out.result as i32)
                    },
                ),
    {
        match self.param.send_message(Message::GetService, Param::Word(0), Param::Word(0)) {
            Ok(out) => {
                assert(self.answers(
                    Request { message: Message::GetService, param1: Param::Word(0), param2: Param::Word(0) },
                    out,
                ));
                if out.result == -1 {
                    Ok(None)
                } else {
                    Ok(Some(out.result as i32))
                }
            },
            Err(e) => Err(e),
        }
    }

    /// The current service and the number of services; `None` when the host
    /// reports an error.
    pub fn get_service(&self) -> (r: Result<Option<GetServiceInfo>, ApiError>)
        requires
            self.wf(),
        ensures
            !self.ready() ==> r == Err::<Option<GetServiceInfo>, ApiError>(ApiError::ChannelNotReady),
            self.ready() ==> exists|out: CallResult|
                self.answers(
                    Request {
                        message: Message::GetService,
                        param1: Param::Record(HostRecord::Count(0)),
                        param2: Param::Word(0),
                    },
                    out,
                ) && r == (if out.result == -1 {
                    Ok::<Option<GetServiceInfo>, ApiError>(None)
                } else {
                    match out.record {
                        Some(HostRecord::Count(n)) => Ok(
                            Some(GetServiceInfo { index: out.result as i32, num_services: n }),
                        ),
                        _ => Err(ApiError::SizeMismatch),
                    }
                }),
    {
        match self.param.send_message(
            Message::GetService,
            Param::Record(HostRecord::Count(0)),
            Param::Word(0),
        ) {
            Ok(out) => {
                assert(self.answers(
                    Request {
                        message: Message::GetService,
                        param1: Param::Record(HostRecord::Count(0)),
                        param2: Param::Word(0),
                    },
                    out,
                ));
                if out.result == -1 {
                    return Ok(None);
                }
                match out.record {
                    Some(HostRecord::Count(n)) => Ok(
                        Some(GetServiceInfo { index: out.result as i32, num_services: n }),
                    ),
                    _ => Err(ApiError::SizeMismatch),
                }
            },
            Err(e) => Err(e),
        }
    }

    /// Switches to the service at `index`.
    pub fn set_service_by_index(&self, index: i32) -> (r: Result<bool, ApiError>)
        requires
            self.wf(),
        ensures
            self.param.bool_answer(
                Request {
                    message: Message::SetService,
                    param1: Param::Word(index as isize),
                    param2: Param::Word(0),
                },
                r,
            ),
    {
        self.param.send_message_bool(Message::SetService, Param::Word(index as isize), Param::Word(0))
    }

    /// Switches to the service with identifier `service_id`.
    pub fn set_service_by_id(&self, service_id: i32) -> (r: Result<bool, ApiError>)
        requires
            self.wf(),
        ensures
            self.param.bool_answer(
                Request {
                    message: Message::SetService,
                    param1: Param::Word(service_id as isize),
                    param2: Param::Word(1),
                },
                r,
            ),
    {
        self.param.send_message_bool(
            Message::SetService,
            Param::Word(service_id as isize),
            Param::Word(1),
        )
    }

    /// Service `index` of the current channel; `None` when the host gives none.
    pub fn get_service_info(&self, index: i32) -> (r: Result<Option<ServiceInfo>, ApiError>)
        requires
            self.wf(),
        ensures
            !self.ready() ==> r == Err::<Option<ServiceInfo>, ApiError>(ApiError::ChannelNotReady),
            self.ready() ==> exists|b: ServiceInfo, out: CallResult|
                b.is_blank() && self.answers(
                    Request {
                        message: Message::GetServiceInfo,
                        param1: Param::Word(index as isize),
                        param2: Param::Record(HostRecord::ServiceInfo(b)),
                    },
                    out,
                ) && r == service_outcome(out),
    {
        let blank = ServiceInfo::new();
        match self.param.send_message(
            Message::GetServiceInfo,
            Param::Word(index as isize),
            Param::Record(HostRecord::ServiceInfo(blank)),
        ) {
            Ok(out) => {
                let r = if out.result == 0 {
                    Ok(None)
                } else {
                    match out.record {
                        Some(HostRecord::ServiceInfo(b)) => {
                            if b.size == SERVICE_INFO_SIZE {
                                Ok(Some(b))
                            } else {
                                Err(ApiError::SizeMismatch)
                            }
                        },
                        _ => Err(ApiError::SizeMismatch),
                    }
                };
                assert(blank.is_blank() && self.answers(
                    Request {
                        message: Message::GetServiceInfo,
                        param1: Param::Word(index as isize),
                        param2: Param::Record(HostRecord::ServiceInfo(blank)),
                    },
                    out,
                ) && r == service_outcome(out));
                r
            },
            Err(e) => Err(e),
        }
    }

    /// The length of tuning space `index`'s name; `None` when there is no such
    /// space.
    pub fn get_tuning_space_name_length(&self, index: i32) -> (r: Result<Option<usize>, ApiError>)
        requires
            self.wf(),
        ensures
            !self.ready() ==> r == Err::<Option<usize>, ApiError>(ApiError::ChannelNotReady),
            self.ready() ==> exists|probe: CallResult|
                self.answers(name_probe(index), probe) && r == Ok::<Option<usize>, ApiError>(
                    if probe.result > 0 {
                        Some(probe.result as usize)
                    } else {
                        None
                    },
                ),
    {
        let packed = make_lparam(index as u16, 0xFFFFu16);
        match self.param.send_message(Message::GetTuningSpaceName, Param::Word(0), Param::Word(packed)) {
            Ok(out) => {
                assert(self.answers(name_probe(index), out));
                if out.result > 0 {
                    Ok(Some(out.result as usize))
                } else {
                    Ok(None)
                }
            },
            Err(e) => Err(e),
        }
    }

    /// Tuning space `index`'s name, read in two phases: the length first, then,
    /// for a length above zero, a buffer of that many units from the host
    /// allocator is filled, decoded and freed. A length of zero gives `None`
    /// without an allocation; a filled buffer without a terminator within its
    /// capacity gives `None` too.
    pub fn get_tuning_space_name(&self, index: i32) -> (r: Result<Option<GetTuningSpaceNameInfo>, ApiError>)
        requires
            self.wf(),
        ensures
            !self.ready() ==> r matches Err(ApiError::ChannelNotReady),
            self.ready() ==> exists|probe: CallResult|
                #![trigger self.answers(name_probe(index), probe)]
                self.answers(name_probe(index), probe) && (probe.result <= 0 ==> r matches Ok(None))
                    && (probe.result > 0 ==> exists|alloc: CallResult|
                    #![trigger self.answers(realloc_request(None, (2 * name_capacity(probe.result)) as isize), alloc)]
                    self.answers(realloc_request(None, (2 * name_capacity(probe.result)) as isize), alloc)
                        && (alloc.result == 0 ==> r matches Err(ApiError::AllocationFailure)) && (
                    alloc.result != 0 ==> exists|fill: CallResult, freed: CallResult|
                        self.answers(
                            name_fill(index, word_address(alloc.result), name_capacity(probe.result)),
                            fill,
                        ) && self.answers(realloc_request(Some(word_address(alloc.result)), 0), freed)
                            && name_outcome(fill, name_capacity(probe.result), r))),
    {
        let probed = self.get_tuning_space_name_length(index);
        let ghost probe = choose|p: CallResult|
            self.answers(name_probe(index), p) && probed == Ok::<Option<usize>, ApiError>(
                if p.result > 0 {
                    Some(p.result as usize)
                } else {
                    None
                },
            );
        let length = match probed {
            Ok(Some(n)) => n,
            Ok(None) => return Ok(None),
            Err(e) => return Err(e),
        };
        let capacity: usize = if length < 0xFFFF {
            length
        } else {
            0xFFFF
        };
        assert(capacity == name_capacity(probe.result));
        let bytes: isize = 2 * (capacity as isize);
        let allocated = self.memory_alloc(bytes);
        let ghost alloc = choose|o: CallResult|
            self.answers(realloc_request(None, bytes), o) && allocated == (if o.result == 0 {
                Err::<usize, ApiError>(ApiError::AllocationFailure)
            } else {
                Ok::<usize, ApiError>(word_address(o.result))
            });
        let address = match allocated {
            Ok(a) => a,
            Err(e) => {
                assert(self.answers(realloc_request(None, (2 * name_capacity(probe.result)) as isize), alloc));
                return Err(e);
            },
        };
        let packed = make_lparam(index as u16, capacity as u16);
        let filled = self.param.send_message(
            Message::GetTuningSpaceName,
            Param::Buffer { address, capacity },
            Param::Word(packed),
        );
        let _ = self.memory_free(address);
        let out = match filled {
            Ok(out) => out,
            Err(e) => return Err(e),
        };
        let ghost fill = out;
        assert(self.answers(name_fill(index, address, capacity), fill));
        let r = if out.result <= 0 {
            Ok(None)
        } else {
            let result = out.result;
            match out.units {
                Some(units) => match decode_bounded(units.as_slice(), capacity) {
                    Ok(text) => {
                        proof {
                            lemma_bounded_text_shorter(units@, capacity as int);
                            lemma_until_zero(text@, text@.len() as int);
                            assert(text@.take(text@.len() as int) =~= text@);
                        }
                        let name = text.as_slice().into_string();
                        Ok(Some(GetTuningSpaceNameInfo { length: result as usize, name }))
                    },
                    Err(_) => Ok(None),
                },
                None => Ok(None),
            }
        };
        assert(name_outcome(fill, capacity, r));
        assert(self.answers(realloc_request(None, (2 * name_capacity(probe.result)) as isize), alloc));
        r
    }

    /// Hands the host the terminated `text` for its log, in a block taken from
    /// the host allocator and left to the host.
    fn log(&self, text: String, kind: isize) -> (r: Result<bool, ApiError>)
        requires
            self.wf(),
        ensures
            self.log_answer(text@, kind, r),
    {
        let encoded = text.into_wide_string();
        let units = encoded.0;
        if units.len() > (isize::MAX as usize) / 2 {
            return Err(ApiError::AllocationFailure);
        }
        let bytes: isize = 2 * (units.len() as isize);
        let allocated = self.memory_alloc(bytes);
        let ghost alloc = choose|o: CallResult|
            self.answers(realloc_request(None, bytes), o) && allocated == (if o.result == 0 {
                Err::<usize, ApiError>(ApiError::AllocationFailure)
            } else {
                Ok::<usize, ApiError>(word_address(o.result))
            });
        let address = match allocated {
            Ok(a) => a,
            Err(e) => return Err(e),
        };
        let ghost v = units;
        match self.param.send_message(
            Message::AddLog,
            Param::Filled { address, units },
            Param::Word(kind),
        ) {
            Ok(out) => {
                assert(self.answers(
                    Request {
                        message: Message::AddLog,
                        param1: Param::Filled { address, units: v },
                        param2: Param::Word(kind),
                    },
                    out,
                ));
                assert(self.answers(realloc_request(None, log_size(text@) as isize), alloc));
                Ok(out.result != 0)
            },
            Err(e) => Err(e),
        }
    }

    /// `r` is what writing `text` to the log as an entry of kind word `kind`
    /// may give: the terminated text is copied into a block of the host
    /// allocator, whose address the log message carries. A text whose byte count
    /// does not fit a machine word gets no block.
    pub open spec fn log_answer(&self, text: Seq<char>, kind: isize, r: Result<bool, ApiError>) -> bool {
        &&& log_size(text) > isize::MAX ==> r == Err::<bool, ApiError>(ApiError::AllocationFailure)
        &&& !self.ready() && log_size(text) <= isize::MAX ==> r == Err::<bool, ApiError>(
            ApiError::ChannelNotReady,
        )
        &&& self.ready() && log_size(text) <= isize::MAX ==> exists|alloc: CallResult|
            #![trigger self.answers(realloc_request(None, log_size(text) as isize), alloc)]
            self.answers(realloc_request(None, log_size(text) as isize), alloc) && (alloc.result == 0
                ==> r == Err::<bool, ApiError>(ApiError::AllocationFailure)) && (alloc.result != 0
                ==> exists|v: Vec<u16>, out: CallResult|
                v@ == utf16_of(text).push(0) && self.answers(
                    Request {
                        message: Message::AddLog,
                        param1: Param::Filled { address: word_address(alloc.result), units: v },
                        param2: Param::Word(kind),
                    },
                    out,
                ) && r == Ok::<bool, ApiError>(out.result != 0))
    }

    /// Writes `text` to the host's log.
    pub fn add_log(&self, text: String) -> (r: Result<bool, ApiError>)
        requires
            self.wf(),
        ensures
            self.log_answer(text@, 0, r),
    {
        self.log(text, 0)
    }

    /// Writes `text` to the host's log as an entry of kind `kind`.
    pub fn add_log_with_kind(&self, text: String, kind: LogKind) -> (r: Result<bool, ApiError>)
        requires
            self.wf(),
        ensures
            self.log_answer(text@, kind.value() as isize, r),
    {
        self.log(text, kind.value() as isize)
    }
}

} // verus!
