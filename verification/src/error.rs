//! Error taxonomy shared by every operation of the library.

use vstd::prelude::*;

verus! {

/// Why an operation failed. Local validation errors are distinguished
/// from peer-signaled protocol errors so callers can choose
/// differentiated retry policy.
#[derive(Clone, Copy, Debug, PartialEq, Eq, Structural)]
pub enum SpdmStatus {
    /// A caller-supplied parameter is out of range.
    InvalidParameter,
    /// A received message field failed parsing or validation.
    InvalidMsgField,
    /// The local configuration cannot serve the request.
    InvalidStateLocal,
    /// The negotiated capabilities do not cover the operation.
    UnsupportedCapability,
    /// A cryptographic provider call failed.
    CryptoError,
    /// A signature or HMAC verification gate rejected the message.
    VerifFail,
    /// A bounded buffer had no room for an append.
    BufferFull,
    /// No session slot is available.
    SessionNumberExceeded,
    /// The peer returned or implied a protocol-level error.
    ErrorPeer,
}

/// Result of every fallible operation of the library.
pub type SpdmResult<T> = Result<T, SpdmStatus>;

} // verus!
