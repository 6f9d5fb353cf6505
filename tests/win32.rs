use tvtest::win32::{
    make_long, make_lparam, DecodeFailure, FixedWideString, IntoRustString, IntoWideString,
    WideString, WideStringPtr,
};

fn reader(mem: &[u16]) -> impl Fn(usize, usize) -> u16 + '_ {
    move |_address: usize, index: usize| mem[index]
}

#[test]
fn encodes_with_terminator() {
    let w = "ab".into_wide_string();
    assert_eq!(w.0, vec![0x61, 0x62, 0]);
    let e = "".into_wide_string();
    assert_eq!(e.0, vec![0]);
}

#[test]
fn surrogate_pair_round_trips() {
    let s = "a\u{1F600}b".to_string();
    let w = s.clone().into_wide_string();
    assert_eq!(w.0.len(), 5);
    assert_eq!(w.0[1], 0xD83D);
    assert_eq!(w.0[2], 0xDE00);
    assert_eq!(w.into_string(), s);
}

#[test]
fn borrowed_round_trip() {
    let text = "チャンネル".to_string();
    let w = text.clone().into_wide_string();
    let read = reader(&w.0);
    let ptr = WideStringPtr(0x1000);
    let decoded = ptr.read_wide_string(w.0.len(), &read).unwrap();
    assert_eq!(decoded.0, w.0);
    assert_eq!(ptr.read_string(w.0.len() + 10, &read).unwrap(), text);
}

#[test]
fn borrowed_null_fails() {
    let mem = [0x41u16, 0];
    let read = reader(&mem);
    assert_eq!(WideStringPtr::null().read_units(2, &read), Err(DecodeFailure::NullPointer));
    assert!(WideStringPtr::null().is_null());
    assert!(!WideStringPtr(8).is_null());
}

#[test]
fn bounded_scan_stops_at_bound() {
    let mem = [1u16, 2, 3, 4, 5];
    let highest = std::cell::Cell::new(0usize);
    let read = |_a: usize, i: usize| {
        if i > highest.get() {
            highest.set(i);
        }
        mem[i]
    };
    assert_eq!(WideStringPtr(4).read_units(3, &read), Err(DecodeFailure::Unterminated));
    assert_eq!(highest.get(), 2);
}

#[test]
fn bounded_scan_needs_terminator_inside_bound() {
    let mem = [7u16, 8, 0];
    let read = reader(&mem);
    assert_eq!(WideStringPtr(4).read_units(2, &read), Err(DecodeFailure::Unterminated));
    assert_eq!(WideStringPtr(4).read_units(3, &read), Ok(vec![7, 8]));
}

#[test]
fn fixed_decode_stops_at_terminator() {
    let f = FixedWideString::<6>([0x41, 0x42, 0, 0x43, 0, 0]);
    assert_eq!(f.to_wide_string().0, vec![0x41, 0x42, 0]);
    assert_eq!(f.into_string(), "AB");
}

#[test]
fn fixed_decode_uses_full_capacity() {
    let f = FixedWideString::<3>([0x41, 0x42, 0x43]);
    assert_eq!(f.to_wide_string().0, vec![0x41, 0x42, 0x43, 0]);
    let z = FixedWideString::<4>::empty();
    assert_eq!(z.to_wide_string().0, vec![0]);
}

#[test]
fn units_convert_both_ways() {
    let units: Vec<u16> = vec![0x48, 0x69];
    assert_eq!(units.clone().into_wide_string().0, vec![0x48, 0x69, 0]);
    assert_eq!(units.as_slice().into_string(), "Hi");
    assert_eq!(WideString::from_units(&[0x48, 0, 0x69]).to_units(), vec![0x48]);
    assert_eq!(WideString::new().0, vec![0]);
}

#[test]
fn packs_low_and_high_halves() {
    assert_eq!(make_long(0x1234, 0xABCD), 0xABCD_1234);
    assert_eq!(make_lparam(5, 0xFFFF), 0xFFFF_0005u32 as isize);
}

#[test]
fn defaults_are_empty() {
    assert_eq!(WideString::default().0, vec![0]);
    assert_eq!(FixedWideString::<3>::default().0, [0, 0, 0]);
    assert!(WideStringPtr::default().is_null());
}

#[test]
fn length_of_lent_text() {
    let mem = [0x61u16, 0x62, 0x63, 0];
    let read = reader(&mem);
    assert_eq!(WideStringPtr(16).get_length(4, &read), Ok(3));
    assert_eq!(WideStringPtr(16).get_length(3, &read), Err(DecodeFailure::Unterminated));
    assert_eq!(WideStringPtr(0).get_length(4, &read), Err(DecodeFailure::NullPointer));
}

#[test]
fn encoder_keeps_units_after_embedded_nul() {
    assert_eq!("a\0b".into_wide_string().0, vec![0x61, 0, 0x62, 0]);
    assert_eq!("a\0b".to_string().into_wide_string().0, vec![0x61, 0, 0x62, 0]);
}

#[test]
fn unit_slices_are_terminated_once() {
    let open: &[u16] = &[0x61, 0x62];
    assert_eq!(open.into_wide_string().0, vec![0x61, 0x62, 0]);
    let closed: &[u16] = &[0x61, 0];
    assert_eq!(closed.into_wide_string().0, vec![0x61, 0]);
    let empty: &[u16] = &[];
    assert_eq!(empty.into_wide_string().0, vec![0]);
}

#[test]
fn unpaired_surrogates_decode_to_replacement() {
    let units: Vec<u16> = vec![0xD800, 0x41, 0xDC00, 0xD83D, 0xDE00];
    assert_eq!(units.into_string(), "\u{FFFD}A\u{FFFD}\u{1F600}");
}
