use tvtest::version::{default_api_version, Version};

#[test]
fn unpacks_each_field() {
    let code: u32 = (3 << 24) | (0x123 << 12) | 0x456;
    assert_eq!(Version::get_major(code), 3);
    assert_eq!(Version::get_minor(code), 0x123);
    assert_eq!(Version::get_build(code), 0x456);
}

#[test]
fn packs_wire_format() {
    let v = Version { major: 0, minor: 12, build: 3 };
    assert_eq!(v.to_code(), (12 << 12) | 3);
    let w: u32 = Version { major: 1, minor: 2, build: 3 }.into();
    assert_eq!(w, 0x0100_2003);
}

#[test]
fn pack_unpack_round_trip() {
    for &(major, minor, build) in &[(0u32, 0u32, 0u32), (255, 4095, 4095), (1, 2, 3), (128, 2048, 1)] {
        let code = Version { major, minor, build }.to_code();
        let back = Version::from(code);
        assert_eq!(back, Version { major, minor, build });
    }
}

#[test]
fn out_of_range_parts_are_truncated() {
    let v = Version { major: 0x1FF, minor: 0x1001, build: 0x1002 };
    assert_eq!(v.to_code(), (0xFF << 24) | (1 << 12) | 2);
}

#[test]
fn default_api_version_is_fourteen() {
    let v = default_api_version();
    assert_eq!((v.major, v.minor, v.build), (0, 0, 14));
    assert_eq!(v.to_code(), 14);
}
