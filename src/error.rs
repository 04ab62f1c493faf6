use vstd::prelude::*;

verus! {

/// The ways in which an operation of the protocol can fail.
#[derive(Debug)]
pub enum SamError {
    /// Connecting, reading or writing failed; the text says what happened.
    Transport(String),
    /// The router answered with a failure or with a reply of an unexpected
    /// shape; the raw reply line is kept.
    Protocol(String),
    /// A datagram or a stream header is not framed as it should be.
    Format,
    /// A key is not valid in the network's base64 alphabet.
    Decode,
    /// A naming lookup gave no usable value.
    Resolution,
}

} // verus!
