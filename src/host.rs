use vstd::prelude::*;
use crate::version::Version;
use crate::win32::WideStringPtr;

verus! {

#[derive(PartialEq, Eq, Structural, Clone, Copy, Debug)]
/// The host program.
pub struct HostInfo {
    /// Byte length of the record as its sender declared it.
    pub size: u32,
    /// Program name.
    pub app_name: WideStringPtr,
    /// Version.
    pub version: Version,
    /// Version text.
    pub version_text: WideStringPtr,
    /// Plugin API version the host supports.
    pub supported_plugin_version: u32,
}

} // verus!
