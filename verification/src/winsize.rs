use vstd::prelude::*;

verus! {

/// The size of a terminal. The session never looks inside: it carries the
/// record from the controlling terminal to the child and to the observer.
#[derive(Clone, Copy, Debug, PartialEq, Eq, Structural)]
pub struct Winsize {
    /// Rows, in characters.
    pub ws_row: u16,
    /// Columns, in characters.
    pub ws_col: u16,
    /// Width, in pixels.
    pub ws_xpixel: u16,
    /// Height, in pixels.
    pub ws_ypixel: u16,
}

} // verus!
