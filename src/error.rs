use vstd::prelude::*;

verus! {

/// A client message that does not describe a valid event.
#[derive(Clone, Copy, Debug, PartialEq, Eq, Structural)]
pub enum DecodeError {
    /// The color tag names no color of the palette.
    UnknownColor,
    /// A coordinate does not fit in 16 bits.
    CoordinateRange,
}

/// An event whose coordinates lie outside the canvas.
#[derive(Clone, Copy, Debug, PartialEq, Eq, Structural)]
pub struct OutOfBounds;

} // verus!
