use vstd::prelude::*;

verus! {

/// Size of a terminal viewport, in cells and in pixels per cell.
#[derive(Copy, Clone, Debug, PartialEq, Eq, Structural)]
pub struct WindowSize {
    pub num_lines: u16,
    pub num_cols: u16,
    pub cell_width: u16,
    pub cell_height: u16,
}

} // verus!
