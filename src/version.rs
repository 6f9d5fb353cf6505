//! Versions and their packed 8/12/12-bit wire form.
use vstd::prelude::*;

verus! {

/// The value that a `(major, minor, build)` triple packs to: major in the upper
/// 8 bits, minor in the next 12, build in the low 12. Each part is truncated to
/// its width.
pub open spec fn version_code(major: u32, minor: u32, build: u32) -> u32 {
    ((major % 256) * 0x100_0000 + (minor % 4096) * 0x1000 + build % 4096) as u32
}

/// The version a packed wire value stands for.
pub open spec fn unpacked(value: u32) -> Version {
    Version { major: value / 0x100_0000, minor: (value / 0x1000) % 4096, build: value % 4096 }
}

/// A host or plugin version, as three unpacked numbers.
#[derive(PartialEq, Eq, Structural, Clone, Copy, Debug)]
pub struct Version {
    /// Major version (8 bits on the wire).
    pub major: u32,
    /// Minor version (12 bits on the wire).
    pub minor: u32,
    /// Build number (12 bits on the wire).
    pub build: u32,
}

/// The plugin API version this library speaks unless a plugin asks for another.
pub fn default_api_version() -> (r: Version)
    ensures
        r.major == 0 && r.minor == 0 && r.build == 14,
{
    Version { major: 0, minor: 0, build: 14 }
}

impl Version {
    /// The major part of a packed version: its upper 8 bits.
    pub fn get_major(version: u32) -> (r: u32)
        ensures
            r == version / 0x100_0000,
            r < 256,
    {
        let r = version >> 24u32;
        assert(version >> 24u32 == version / 0x100_0000) by (bit_vector);
        r
    }

    /// The minor part of a packed version: bits 12 to 23.
    pub fn get_minor(version: u32) -> (r: u32)
        ensures
            r == (version / 0x1000) % 4096,
    {
        let r = (version & 0x00FF_F000u32) >> 12u32;
        assert((version & 0x00FF_F000u32) >> 12u32 == (version / 0x1000) % 4096) by (bit_vector);
        r
    }

    /// The build part of a packed version: its low 12 bits.
    pub fn get_build(version: u32) -> (r: u32)
        ensures
            r == version % 4096,
    {
        let r = version & 0x0000_0FFFu32;
        assert(version & 0x0000_0FFFu32 == version % 4096) by (bit_vector);
        r
    }

    /// Unpacks a version from its wire form.
    pub fn from_code(value: u32) -> (r: Version)
        ensures
            r == unpacked(value),
    {
        let major = Version::get_major(value);
        let minor = Version::get_minor(value);
        let build = Version::get_build(value);
        Version { major, minor, build }
    }

    /// Packs this version into its wire form, truncating each part to its width.
    pub fn to_code(&self) -> (r: u32)
        ensures
            r == version_code(self.major, self.minor, self.build),
    {
        let major = self.major;
        let minor = self.minor;
        let build = self.build;
        let r = ((major & 0xFFu32) << 24u32) | ((minor & 0xFFFu32) << 12u32) | (build & 0xFFFu32);
        assert(((major & 0xFFu32) << 24u32) | ((minor & 0xFFFu32) << 12u32) | (build & 0xFFFu32)
            == ((major % 256) * 0x100_0000 + (minor % 4096) * 0x1000 + build % 4096) as u32)
            by (bit_vector);
        r
    }
}

impl From<u32> for Version {
    fn from(value: u32) -> (r: Version) {
        Version::from_code(value)
    }
}

impl vstd::std_specs::convert::FromSpecImpl<u32> for Version {
    open spec fn obeys_from_spec() -> bool {
        true
    }

    open spec fn from_spec(value: u32) -> Version {
        unpacked(value)
    }
}

impl From<Version> for u32 {
    fn from(version: Version) -> (r: u32) {
        version.to_code()
    }
}

impl vstd::std_specs::convert::FromSpecImpl<Version> for u32 {
    open spec fn obeys_from_spec() -> bool {
        true
    }

    open spec fn from_spec(version: Version) -> u32 {
        version_code(version.major, version.minor, version.build)
    }
}

/// Packing three in-range parts and unpacking the result gives the parts back.
pub proof fn lemma_version_round_trip(major: u32, minor: u32, build: u32)
    requires
        major < 256,
        minor < 4096,
        build < 4096,
    ensures
        unpacked(version_code(major, minor, build)) == (Version { major, minor, build }),
{
    let v = version_code(major, minor, build);
    assert(v == major * 0x100_0000 + minor * 0x1000 + build);
    assert(v / 0x100_0000 == major) by (nonlinear_arith)
        requires
            v == major * 0x100_0000 + minor * 0x1000 + build,
            minor < 4096,
            build < 4096,
    ;
    assert(v / 0x1000 == major * 0x1000 + minor) by (nonlinear_arith)
        requires
            v == major * 0x100_0000 + minor * 0x1000 + build,
            build < 4096,
    ;
    assert((major * 0x1000 + minor) % 4096 == minor) by (nonlinear_arith)
        requires
            minor < 4096,
    ;
    assert(v % 4096 == build) by (nonlinear_arith)
        requires
            v == major * 0x100_0000 + minor * 0x1000 + build,
            build < 4096,
    ;
}

} // verus!
