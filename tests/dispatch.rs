use std::cell::Cell;
use tvtest::event::Event;
use tvtest::event_handler::TVTestEventHandler;
use tvtest::export::{decode_notification, handle_event, DefaultHandler, Notification, Record, RecordKind};
use tvtest::program_guide::ProgramGuideInitializeMenuInfo;
use tvtest::record::{RecordClient, RecordStart, RecordStatus, RecordStop, StartRecordInfo};
use tvtest::stereo_mode::StereoMode;
use tvtest::status_item::StatusItemDrawInfo;
use tvtest::win32::WideStringPtr;

struct Empty;
impl TVTestEventHandler for Empty {}

struct Channel {
    calls: Cell<u32>,
}
impl TVTestEventHandler for Channel {
    fn on_channel_change(&self) -> bool {
        self.calls.set(self.calls.get() + 1);
        true
    }
}

struct Rich {
    volume: Cell<(i32, bool)>,
    command_line: Cell<Option<WideStringPtr>>,
    record_client: Cell<Option<RecordClient>>,
}
impl TVTestEventHandler for Rich {
    fn on_volume_change(&self, volume: i32, mute: bool) -> bool {
        self.volume.set((volume, mute));
        true
    }
    fn on_execute(&self, command_line: WideStringPtr) -> bool {
        self.command_line.set(Some(command_line));
        !command_line.is_null()
    }
    fn on_start_record(&self, info: &StartRecordInfo) -> bool {
        self.record_client.set(Some(info.client));
        true
    }
    fn on_program_guide_initialize_menu(&self, info: &ProgramGuideInitializeMenuInfo) -> i32 {
        -(info.command as i32)
    }
}

fn no_record(_a: usize, _k: RecordKind) -> Option<Record> {
    Some(Record::StatusItemDraw(StatusItemDrawInfo))
}

fn start_record() -> StartRecordInfo {
    StartRecordInfo {
        size: 64,
        flags: 0,
        modified: 0,
        client: RecordClient::Plugin,
        filename: WideStringPtr(0),
        max_filename: 0,
        start_time_spec: RecordStart::NotSpecified,
        start_time: 0,
        stop_time_spec: RecordStop::NotSpecified,
        stop_time: 0,
    }
}

#[test]
fn channel_change_answers_one() {
    let h = Channel { calls: Cell::new(0) };
    let id = Event::ChannelChange.value();
    assert_eq!(handle_event(id, 0, 0, &h, &no_record), 1);
    assert_eq!(h.calls.get(), 1);
}

#[test]
fn every_event_has_a_default_answer() {
    let h = Empty;
    let rec = |_a: usize, k: RecordKind| match k {
        RecordKind::StartRecord => Some(Record::StartRecord(start_record())),
        _ => no_record(0, k),
    };
    for id in 0..=Event::Trailer.value() {
        let e = Event::from_value(id).unwrap();
        let w = handle_event(id, 0, 0, &h, &rec);
        let expected = match e {
            Event::ProgramGuideInitialize | Event::ProgramGuideFinalize => 1,
            _ => 0,
        };
        assert_eq!(w, expected, "event {}", id);
    }
}

#[test]
fn unknown_events_answer_zero() {
    let h = Channel { calls: Cell::new(0) };
    assert_eq!(handle_event(Event::Trailer.value() + 1, 1, 1, &h, &no_record), 0);
    assert_eq!(handle_event(u32::MAX, 1, 1, &h, &no_record), 0);
    assert_eq!(h.calls.get(), 0);
}

#[test]
fn event_identifiers_are_dense() {
    assert_eq!(Event::PluginEnable.value(), 0);
    assert_eq!(Event::ChannelChange.value(), 2);
    assert_eq!(Event::GetVariable.value(), 43);
    assert_eq!(Event::from_value(44), Some(Event::Trailer));
    assert_eq!(Event::from_value(45), None);
}

#[test]
fn scalar_words_are_decoded() {
    let h = Rich {
        volume: Cell::new((0, false)),
        command_line: Cell::new(None),
        record_client: Cell::new(None),
    };
    let w = handle_event(Event::VolumeChange.value(), 70, 1, &h, &no_record);
    assert_eq!(w, 1);
    assert_eq!(h.volume.get(), (70, true));
    match decode_notification(Event::StereoModeChange, 2, 0, &no_record) {
        Some(Notification::StereoModeChange(m)) => assert_eq!(m, StereoMode::Right),
        other => panic!("unexpected {:?}", other),
    }
    match decode_notification(Event::RecordStatusChange, 1, 0, &no_record) {
        Some(Notification::RecordStatusChange(s)) => assert_eq!(s, RecordStatus::Recording),
        other => panic!("unexpected {:?}", other),
    }
}

#[test]
fn out_of_range_enum_word_gets_default() {
    let h = Empty;
    assert!(decode_notification(Event::StereoModeChange, 3, 0, &no_record).is_none());
    assert!(decode_notification(Event::RecordStatusChange, -1, 0, &no_record).is_none());
    assert_eq!(handle_event(Event::StereoModeChange.value(), 9, 0, &h, &no_record), 0);
}

#[test]
fn text_address_is_handed_over() {
    let h = Rich {
        volume: Cell::new((0, false)),
        command_line: Cell::new(None),
        record_client: Cell::new(None),
    };
    assert_eq!(handle_event(Event::Execute.value(), 0x4000, 0, &h, &no_record), 1);
    assert_eq!(h.command_line.get(), Some(WideStringPtr(0x4000)));
}

#[test]
fn null_text_address_is_handed_over_too() {
    let h = Rich {
        volume: Cell::new((0, false)),
        command_line: Cell::new(None),
        record_client: Cell::new(None),
    };
    assert_eq!(handle_event(Event::Execute.value(), 0, 0, &h, &no_record), 0);
    assert_eq!(h.command_line.get(), Some(WideStringPtr(0)));
    match decode_notification(Event::RelayRecord, 0x10, 0, &no_record) {
        Some(Notification::RelayRecord(p)) => assert_eq!(p, WideStringPtr(0x10)),
        other => panic!("unexpected {:?}", other),
    }
}

#[test]
fn record_payload_is_handed_to_handler() {
    let h = Rich {
        volume: Cell::new((0, false)),
        command_line: Cell::new(None),
        record_client: Cell::new(None),
    };
    let rec = |a: usize, k: RecordKind| {
        assert_eq!(a, 0x2000);
        match k {
            RecordKind::StartRecord => Some(Record::StartRecord(start_record())),
            RecordKind::ProgramGuideInitializeMenu => Some(Record::ProgramGuideInitializeMenu(
                ProgramGuideInitializeMenuInfo { hmenu: 1, command: 7, reserved: 0 },
            )),
            _ => no_record(a, k),
        }
    };
    assert_eq!(handle_event(Event::StartRecord.value(), 0x2000, 0, &h, &rec), 1);
    assert_eq!(h.record_client.get(), Some(RecordClient::Plugin));
    assert_eq!(
        handle_event(Event::ProgramGuideInitializeMenu.value(), 0x2000, 0, &h, &rec),
        -7
    );
}

#[test]
fn null_or_mismatched_record_gets_default() {
    let h = Rich {
        volume: Cell::new((0, false)),
        command_line: Cell::new(None),
        record_client: Cell::new(None),
    };
    assert_eq!(handle_event(Event::StartRecord.value(), 0, 0, &h, &no_record), 0);
    assert_eq!(handle_event(Event::StartRecord.value(), 0x10, 0, &h, &no_record), 0);
    let unreadable = |_a: usize, _k: RecordKind| -> Option<Record> { None };
    assert_eq!(handle_event(Event::StartRecord.value(), 0x10, 0, &h, &unreadable), 0);
    assert_eq!(h.record_client.get(), None);
}

#[test]
fn default_handler_gives_documented_defaults() {
    let rec = |_a: usize, k: RecordKind| match k {
        RecordKind::StartRecord => Some(Record::StartRecord(start_record())),
        _ => no_record(0, k),
    };
    for id in 0..=Event::Trailer.value() {
        let expected = if id == Event::ProgramGuideInitialize.value() || id == Event::ProgramGuideFinalize.value() {
            1
        } else {
            0
        };
        assert_eq!(handle_event(id, 0x30, 0x30, &DefaultHandler, &rec), expected, "event {}", id);
    }
}
