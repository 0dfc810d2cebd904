//! The session error taxonomy. Every failure is terminal for its session;
//! nothing is retried.

use vstd::prelude::*;

verus! {

/// The direction of a relay pump, named from the proxy's point of view.
#[derive(Clone, Copy, Debug, PartialEq, Eq, Structural)]
pub enum Direction {
    ClientToUpstream,
    UpstreamToClient,
}

/// Why a session ended before or during the relay phase.
///
/// Protocol violations found before a reply is sent close the connection
/// silently; only a failed dial is reported to the client, with a failure
/// reply frame. The reason behind a failed dial or transfer is an I/O
/// error of the platform and stays with the caller that performed the I/O.
#[derive(Clone, Copy, Debug, PartialEq, Eq, Structural)]
pub enum SocksError {
    ProtocolVersionMismatch,
    NoAcceptableMethod,
    MalformedHeader,
    UnsupportedCommand,
    UnsupportedAddressType,
    InvalidDomainEncoding,
    DialFailure,
    TransferFailure(Direction),
}

} // verus!
