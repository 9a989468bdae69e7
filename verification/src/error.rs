use vstd::prelude::*;

verus! {

/// The error conditions of the multiplexing core.
///
/// `Transport` is fatal to the connection and is reported to every
/// outstanding caller; the others are local to one exchange.
#[derive(Clone, Copy, Debug, PartialEq, Eq, Structural)]
pub enum MuxError {
    /// The underlying stream failed or closed; fatal to the connection.
    Transport,
    /// A response arrived whose tag matches no outstanding request.
    UnknownTag,
    /// Bytes arrived that are not a well-formed tagged envelope.
    Malformed,
    /// The tag space is exhausted; the new request is refused.
    Exhausted,
    /// The payload's content does not fit the wire layout's length fields;
    /// the new request is refused.
    Oversize,
    /// A tag was released that was not currently allocated.
    DuplicateRelease,
}

} // verus!
