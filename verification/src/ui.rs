//! Geometry shared with the display layer.

use vstd::prelude::*;

verus! {

/// Information about the results list area, for mouse click handling.
#[derive(Debug, Clone, Copy)]
pub struct ResultsAreaInfo {
    pub top: u16,
    pub height: u16,
    pub left: u16,
    pub width: u16,
}

} // verus!
