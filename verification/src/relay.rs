//! The relay engine's decision core. Each direction of the relay is an
//! independent pump loop: read into a fixed buffer, then act on the
//! outcome. The reads and writes themselves are I/O and stay with the
//! caller; the decision after every read, and the exact bytes to forward,
//! are computed here.

use vstd::prelude::*;

use crate::codec::copy_range;
use crate::error::Direction;

verus! {

/// Buffer size for the client-to-upstream pump (512 KiB).
pub const CLIENT_TO_UPSTREAM_BUF: usize = 524288;

/// Buffer size for the upstream-to-client pump (1 MiB).
pub const UPSTREAM_TO_CLIENT_BUF: usize = 1048576;

/// The outcome of one read on a pump's source socket, as the caller saw it.
#[derive(Clone, Copy, Debug, PartialEq, Eq, Structural)]
pub enum ReadEvent {
    /// The read returned this many bytes; zero signals end-of-stream.
    Data(usize),
    /// The read failed with a transient would-block condition.
    WouldBlock,
    /// The read failed with any other error.
    Failed,
}

/// What a pump does after one read.
#[derive(Clone, Copy, Debug, PartialEq, Eq, Structural)]
pub enum PumpStep {
    /// Forward exactly this many bytes from the front of the buffer.
    Forward(usize),
    /// A would-block condition is not an error: read again.
    Retry,
    /// Orderly end-of-stream: this direction is done, the session ends.
    Finished,
    /// The read failed for good: report a transfer failure and end.
    Abort(Direction),
}

/// Decides one step of a pump loop from the outcome of one read: data is
/// forwarded unchanged, a zero-length read ends the direction in order, a
/// would-block read is retried, and any other read error aborts it.
pub fn pump_step(event: ReadEvent, dir: Direction) -> (r: PumpStep)
    ensures
        event matches ReadEvent::Data(n) ==> r == (if n == 0 {
            PumpStep::Finished
        } else {
            PumpStep::Forward(n)
        }),
        event is WouldBlock ==> r is Retry,
        event is Failed ==> (r matches PumpStep::Abort(d) && d == dir),
{
    match event {
        ReadEvent::Data(n) => {
            if n == 0 {
                PumpStep::Finished
            } else {
                PumpStep::Forward(n)
            }
        }
        ReadEvent::WouldBlock => PumpStep::Retry,
        ReadEvent::Failed => PumpStep::Abort(dir),
    }
}

/// Extracts the bytes a pump must forward: exactly the first `n` bytes of
/// the read buffer, unmodified and in order.
pub fn forward_chunk(buf: &Vec<u8>, n: usize) -> (r: Vec<u8>)
    requires
        n <= buf@.len(),
    ensures
        r@ == buf@.subrange(0, n as int),
{
    copy_range(buf, 0, n)
}

} // verus!
