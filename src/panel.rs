use vstd::prelude::*;

verus! {

/// A notification for a panel item.
#[derive(PartialEq, Eq, Structural, Clone, Copy, Debug)]
pub struct PanelItemEventInfo;

} // verus!
