use vstd::prelude::*;

verus! {

/// The failures that the bridge distinguishes.
#[derive(Clone, Copy, Debug, PartialEq, Eq, Structural)]
pub enum BridgeError {
    /// The transport failed below the protocol.
    LinkError,
    /// The expected response bytes did not arrive in time.
    Timeout,
    /// An address or register was not recognised.
    ProtocolMismatch,
    /// A write payload does not fit the one-byte length field.
    PayloadTooLarge,
    /// A batch could not be written to durable storage.
    StorageWriteFailure,
}

} // verus!
