use vstd::prelude::*;
use crate::win32::WideStringPtr;

verus! {

/// A variable the host asks a plugin for.
#[derive(PartialEq, Eq, Structural, Clone, Copy, Debug)]
pub struct GetVariableInfo {
    /// The variable's name.
    pub keyword: WideStringPtr,
    /// Where the value goes.
    pub value: WideStringPtr,
}

} // verus!
