use vstd::prelude::*;

verus! {

/// The filter graph a filter graph event is about.
#[derive(Clone, Copy, Debug)]
pub struct FilterGraphInfo {
    /// Flags (always zero so far).
    pub flags: u32,
    /// Video `stream_type`.
    pub video_stream_type: u8,
    /// Reserved.
    pub reserved: [u8; 3],
    /// Address of the graph builder object.
    pub graph_builder: usize,
}

} // verus!
