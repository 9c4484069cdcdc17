use vstd::prelude::*;

verus! {

/// The wire context a payload buffer is read and written under: the byte
/// order of multi-byte fields, and the stream position the buffer starts at
/// (alignment padding depends on it).
///
/// A buffer only decodes correctly under the same context it was encoded
/// with, so the context is threaded unchanged from encode to decode.
#[derive(Debug, Clone, Copy, PartialEq, Eq, Structural)]
pub struct WireContext {
    /// True for little-endian byte order, false for big-endian.
    pub little_endian: bool,
    /// The position in the wire stream at which the buffer starts.
    pub position: usize,
}

} // verus!
