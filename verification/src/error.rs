//! Why an animation could not be built.
use vstd::prelude::*;

verus! {

/// Why an animation could not be built.
#[derive(Clone, Copy, Debug, PartialEq, Eq, Structural)]
pub enum AnimeError {
    /// The source could not be read. The library reads nothing itself: the caller
    /// that fetches the source reports this.
    Io,
    /// The source is no well-formed image: it is corrupt, or it ends too early.
    Decode,
    /// The source holds no frame.
    NoFrames,
    /// A stored data buffer has not the length that the device takes.
    DataBufferLength,
}

} // verus!
