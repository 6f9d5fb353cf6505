use std::cell::RefCell;
use tvtest::api::PluginApi;
use tvtest::channel::{ChannelInfo, CHANNEL_INFO_SIZE};
use tvtest::log::LogKind;
use tvtest::message::{ApiError, CallResult, HostRecord, Message, Param, PluginParam, Request};
use tvtest::service::{ServiceInfo, SERVICE_INFO_SIZE};
use tvtest::win32::{FixedWideString, IntoRustString, WindowHandle};

fn answer(result: isize) -> CallResult {
    CallResult { result, record: None, units: None }
}

fn api<F: Fn(Request) -> CallResult>(f: F) -> PluginApi<F> {
    PluginApi { param: PluginParam { callback: Some(f), hwnd_app: WindowHandle(42), client_data: 0 } }
}

fn word(p: &Param) -> isize {
    match p {
        Param::Word(w) => *w,
        other => panic!("not a word: {:?}", other),
    }
}

#[test]
fn unready_channel_fails_every_call() {
    let a: PluginApi<fn(Request) -> CallResult> =
        PluginApi { param: PluginParam { callback: None, hwnd_app: WindowHandle(0), client_data: 0 } };
    assert_eq!(a.query_message(Message::SetChannel), Err(ApiError::ChannelNotReady));
    assert_eq!(a.memory_alloc(16), Err(ApiError::ChannelNotReady));
    assert_eq!(a.memory_free(16), Err(ApiError::ChannelNotReady));
    assert!(matches!(a.get_tuning_space_name(0), Err(ApiError::ChannelNotReady)));
    assert!(matches!(a.get_version(), Err(ApiError::ChannelNotReady)));
}

#[test]
fn unsupported_set_channel_sends_nothing_more() {
    let sent = RefCell::new(Vec::new());
    let a = api(|q: Request| {
        sent.borrow_mut().push((q.message, word(&q.param1), word(&q.param2)));
        answer(0)
    });
    assert_eq!(a.query_message(Message::SetChannel), Ok(false));
    sent.borrow_mut().clear();
    assert_eq!(a.set_channel(1, 2), Ok(false));
    let log = sent.borrow();
    assert_eq!(log.len(), 1);
    assert_eq!(log[0], (Message::QueryMessage, Message::SetChannel.value() as isize, 0));
}

#[test]
fn supported_set_channel_sends_the_switch() {
    let sent = RefCell::new(Vec::new());
    let a = api(|q: Request| {
        sent.borrow_mut().push((q.message, word(&q.param1), word(&q.param2)));
        answer(1)
    });
    assert_eq!(a.set_channel(3, 9), Ok(true));
    assert_eq!(sent.borrow()[1], (Message::SetChannel, 3, 9));
}

#[test]
fn allocator_lifecycle() {
    let sent = RefCell::new(Vec::new());
    let a = api(|q: Request| {
        let (p1, p2) = (word(&q.param1), word(&q.param2));
        sent.borrow_mut().push((q.message, p1, p2));
        if p2 > 0 { answer(0x5000) } else { answer(0) }
    });
    let p = a.memory_alloc(32).unwrap();
    assert_eq!(p, 0x5000);
    assert_eq!(a.memory_free(p), Ok(()));
    assert_eq!(a.memory_realloc(Some(p), 64), Ok(Some(0x5000)));
    let log = sent.borrow();
    assert_eq!(log[0], (Message::MemoryAlloc, 0, 32));
    assert_eq!(log[1], (Message::MemoryAlloc, 0x5000, 0));
}

#[test]
fn allocation_failure_is_reported() {
    let a = api(|_q: Request| answer(0));
    assert_eq!(a.memory_alloc(8), Err(ApiError::AllocationFailure));
    assert_eq!(a.memory_realloc(None, 8), Ok(None));
}

#[test]
fn name_probe_of_zero_is_not_found_without_allocating() {
    let sent = RefCell::new(Vec::new());
    let a = api(|q: Request| {
        sent.borrow_mut().push(q.message);
        answer(0)
    });
    assert!(matches!(a.get_tuning_space_name(0), Ok(None)));
    assert_eq!(*sent.borrow(), vec![Message::GetTuningSpaceName]);
}

#[test]
fn set_channel_with_service_probes_first() {
    let a = api(|_q: Request| answer(0));
    assert_eq!(a.set_channel_with_service_id(1, 2, 3), Ok(false));
}

fn name_host(q: Request, units: &[u16], sent: &RefCell<Vec<Message>>) -> CallResult {
    sent.borrow_mut().push(q.message);
    match (q.message, &q.param1) {
        (Message::GetTuningSpaceName, Param::Word(0)) => answer(4),
        (Message::GetTuningSpaceName, Param::Buffer { address, capacity }) => {
            assert_eq!(*address, 0x7000);
            assert_eq!(*capacity, 4);
            assert_eq!(word(&q.param2), (4 << 16) | 2);
            CallResult { result: 3, record: None, units: Some(units.to_vec()) }
        },
        (Message::MemoryAlloc, Param::Word(0)) => {
            assert_eq!(word(&q.param2), 8);
            answer(0x7000)
        },
        (Message::MemoryAlloc, _) => answer(0),
        _ => answer(0),
    }
}

#[test]
fn name_is_read_in_two_phases() {
    let sent = RefCell::new(Vec::new());
    let units = [0x42u16, 0x53, 0x31, 0];
    let a = api(|q: Request| name_host(q, &units, &sent));
    let info = a.get_tuning_space_name(2).unwrap().unwrap();
    assert_eq!(info.name, "BS1");
    assert_eq!(info.length, 3);
    assert!(info.name.encode_utf16().count() < 4);
    assert_eq!(
        *sent.borrow(),
        vec![Message::GetTuningSpaceName, Message::MemoryAlloc, Message::GetTuningSpaceName, Message::MemoryAlloc]
    );
}

#[test]
fn unterminated_name_buffer_is_not_found() {
    let sent = RefCell::new(Vec::new());
    let units = [0x42u16, 0x53, 0x31, 0x32];
    let a = api(|q: Request| name_host(q, &units, &sent));
    assert!(matches!(a.get_tuning_space_name(2), Ok(None)));
    assert_eq!(sent.borrow().last(), Some(&Message::MemoryAlloc));
}

#[test]
fn name_length_probe() {
    let a = api(|q: Request| {
        assert_eq!(word(&q.param2), 0xFFFF_0001u32 as isize);
        answer(6)
    });
    assert_eq!(a.get_tuning_space_name_length(1), Ok(Some(6)));
}

#[test]
fn channel_record_comes_back() {
    let a = api(|q: Request| match q.param1 {
        Param::Record(HostRecord::ChannelInfo(mut c)) => {
            assert_eq!(c.size, CHANNEL_INFO_SIZE);
            c.channel = 13;
            c.channel_name = FixedWideString([0x4E; 64]);
            CallResult { result: 1, record: Some(HostRecord::ChannelInfo(c)), units: None }
        },
        _ => answer(0),
    });
    let c = a.get_current_channel_info().unwrap().unwrap();
    assert_eq!(c.channel, 13);
    assert_eq!(c.channel_name.into_string(), "N".repeat(64));
}

#[test]
fn channel_record_with_foreign_size_is_a_mismatch() {
    let a = api(|q: Request| match q.param1 {
        Param::Record(HostRecord::ChannelInfo(mut c)) => {
            c.size = 100;
            CallResult { result: 1, record: Some(HostRecord::ChannelInfo(c)), units: None }
        },
        _ => answer(0),
    });
    assert!(matches!(a.get_channel_info(1, 2), Err(ApiError::SizeMismatch)));
    let b = api(|_q: Request| answer(0));
    assert!(matches!(b.get_channel_info(1, 2), Ok(None)));
}

#[test]
fn service_queries() {
    let a = api(|q: Request| match (q.message, q.param1, q.param2) {
        (Message::GetService, Param::Record(HostRecord::Count(_)), _) => {
            CallResult { result: 2, record: Some(HostRecord::Count(5)), units: None }
        },
        (Message::GetService, _, _) => answer(-1),
        (Message::GetServiceInfo, Param::Word(1), Param::Record(HostRecord::ServiceInfo(mut s))) => {
            assert_eq!(s.size, SERVICE_INFO_SIZE);
            s.service_id = 0x400;
            CallResult { result: 1, record: Some(HostRecord::ServiceInfo(s)), units: None }
        },
        _ => answer(0),
    });
    let s = a.get_service().unwrap().unwrap();
    assert_eq!((s.index, s.num_services), (2, 5));
    assert_eq!(a.get_service_index(), Ok(None));
    assert_eq!(a.get_service_info(1).unwrap().unwrap().service_id, 0x400);
    assert!(matches!(a.get_service_info(0), Ok(None)));
}

#[test]
fn blank_records_declare_their_size() {
    assert_eq!(ChannelInfo::new().size, 288);
    assert_eq!(ServiceInfo::new().size, 92);
}

#[test]
fn log_text_goes_through_host_allocator() {
    let seen = RefCell::new(Vec::new());
    let a = api(|q: Request| match (q.message, q.param1) {
        (Message::MemoryAlloc, Param::Word(0)) => {
            seen.borrow_mut().push((Message::MemoryAlloc, vec![], word(&q.param2)));
            answer(0x9000)
        },
        (Message::AddLog, Param::Filled { address, units }) => {
            assert_eq!(address, 0x9000);
            seen.borrow_mut().push((Message::AddLog, units, word(&q.param2)));
            answer(1)
        },
        _ => answer(0),
    });
    assert_eq!(a.add_log("hi".to_string()), Ok(true));
    assert_eq!(a.add_log_with_kind("x".to_string(), LogKind::Error), Ok(true));
    let log = seen.borrow();
    assert_eq!(log[0], (Message::MemoryAlloc, vec![], 6));
    assert_eq!(log[1], (Message::AddLog, vec![0x68, 0x69, 0], 0));
    assert_eq!(log[2], (Message::MemoryAlloc, vec![], 4));
    assert_eq!(log[3], (Message::AddLog, vec![0x78, 0], 2));
}

#[test]
fn log_without_host_memory_fails() {
    let sent = RefCell::new(Vec::new());
    let a = api(|q: Request| {
        sent.borrow_mut().push(q.message);
        answer(0)
    });
    assert_eq!(a.add_log("hi".to_string()), Err(ApiError::AllocationFailure));
    assert_eq!(*sent.borrow(), vec![Message::MemoryAlloc]);
}

#[test]
fn version_and_window_and_callbacks() {
    let sent = RefCell::new(Vec::new());
    let a = api(|q: Request| {
        sent.borrow_mut().push((q.message, word(&q.param1), word(&q.param2)));
        answer(0x0012_3004)
    });
    let v = a.get_version().unwrap();
    assert_eq!((v.major, v.minor, v.build), (0, 0x123, 4));
    assert_eq!(a.get_app_window(), WindowHandle(42));
    assert_eq!(a.set_event_callback(0x900), Ok(true));
    assert_eq!(a.set_event_callback_with_client_data(0x900, 7), Ok(true));
    assert_eq!(a.unset_event_callback(), Ok(true));
    assert_eq!(a.set_channel_with_service_id(1, 3, 0x10), Ok(true));
    assert_eq!(a.set_service_by_id(0x400), Ok(true));
    let log = sent.borrow();
    assert_eq!(log[1], (Message::SetEventCallback, 0x900, 0));
    assert_eq!(log[2], (Message::SetEventCallback, 0x900, 7));
    assert_eq!(log[3], (Message::SetEventCallback, 0, 0));
    assert_eq!(log[4], (Message::QueryMessage, Message::SetChannel.value() as isize, 0));
    assert_eq!(log[5], (Message::SetChannel, 1, 0x0010_0003));
    assert_eq!(log[6], (Message::SetService, 0x400, 1));
}

#[test]
fn message_identifiers() {
    assert_eq!(Message::GetVersion.value(), 0);
    assert_eq!(Message::SetChannel.value(), 5);
    assert_eq!(Message::AddLog.value(), 54);
    assert_eq!(Message::Trailer.value(), 118);
}

#[test]
fn blank_recording_record() {
    let r = tvtest::record::RecordInfo::default();
    let expected = if std::mem::size_of::<usize>() == 8 { 64 } else { 56 };
    assert_eq!(r.size, expected);
    assert_eq!(r.mask, 0);
    assert!(r.filename.is_null());
    assert_eq!(ChannelInfo::default().size, CHANNEL_INFO_SIZE);
    assert_eq!(ServiceInfo::default().size, SERVICE_INFO_SIZE);
}

#[test]
fn name_capacity_is_clamped_to_sixteen_bits() {
    let capacities = RefCell::new(Vec::new());
    let a = api(|q: Request| match (q.message, &q.param1) {
        (Message::GetTuningSpaceName, Param::Word(0)) => answer(70_000),
        (Message::GetTuningSpaceName, Param::Buffer { capacity, .. }) => {
            capacities.borrow_mut().push((*capacity, word(&q.param2)));
            CallResult { result: 1, record: None, units: Some(vec![0x41, 0]) }
        },
        (Message::MemoryAlloc, Param::Word(0)) => {
            assert_eq!(word(&q.param2), 2 * 0xFFFF);
            answer(0x100)
        },
        _ => answer(0),
    });
    let info = a.get_tuning_space_name(1).unwrap().unwrap();
    assert_eq!(info.name, "A");
    assert_eq!(capacities.borrow()[0], (0xFFFF, 0xFFFF_0001u32 as isize));
}

#[test]
fn log_text_with_nul_is_sent_whole() {
    let seen = RefCell::new(Vec::new());
    let a = api(|q: Request| match (q.message, q.param1) {
        (Message::MemoryAlloc, Param::Word(0)) => answer(0x9000),
        (Message::AddLog, Param::Filled { units, .. }) => {
            seen.borrow_mut().push(units);
            answer(1)
        },
        _ => answer(0),
    });
    assert_eq!(a.add_log("a\0b".to_string()), Ok(true));
    assert_eq!(seen.borrow()[0], vec![0x61, 0, 0x62, 0]);
}
