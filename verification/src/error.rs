//! Typed errors of the acquisition core.
//!
//! A malformed frame is always reported through `DecodeError` and never
//! silently coerced; an exhausted stream while hunting for a sync marker
//! is the ordinary "no data yet" condition `NoMoreFrames`.

use vstd::prelude::*;

verus! {

/// Which of the two sync markers of a frame header mismatched.
#[derive(Debug, Clone, Copy, PartialEq, Eq, Structural)]
pub enum MarkerPosition {
    Leading,
    Trailing,
}

/// Failure of decoding a single frame.  Fatal to that frame only,
/// never to the process.
#[derive(Debug, Clone, Copy, PartialEq, Eq, Structural)]
pub enum DecodeError {
    /// A sync marker did not hold its fixed constant.
    BadSyncMarker { expected: u32, actual: u32, position: MarkerPosition },
    /// Fewer bytes were available than the fixed layout requires.
    TruncatedInput,
    /// The polarization-format byte is not one of the defined bitmasks.
    UnknownPolarization(u8),
    /// A decoded payload or response does not fit the declared shape.
    ShapeMismatch,
    /// No leading sync marker occurs before the end of the stream.
    NoMoreFrames,
}

} // verus!
