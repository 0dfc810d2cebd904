//! The reply encoder: the one 10-byte SOCKS5 reply frame this proxy sends,
//! reporting the outcome of the dial.

use vstd::prelude::*;

verus! {

/// The 10-byte reply frame: version 5, status (0 success, 1 failure),
/// reserved 0, address type IPv4, bound address and port all zero.
pub open spec fn reply_frame(success: bool) -> Seq<u8> {
    seq![5u8, if success { 0u8 } else { 1u8 }, 0u8, 1u8, 0u8, 0u8, 0u8, 0u8, 0u8, 0u8]
}

/// Builds the reply frame for a dial outcome. Bound-address reporting is
/// not implemented, so the address fields are always zero.
pub fn encode_reply(success: bool) -> (r: Vec<u8>)
    ensures
        r@ == reply_frame(success),
{
    let mut out: Vec<u8> = Vec::new();
    out.push(5);
    if success {
        out.push(0);
    } else {
        out.push(1);
    }
    out.push(0);
    out.push(1);
    out.push(0);
    out.push(0);
    out.push(0);
    out.push(0);
    out.push(0);
    out.push(0);
    assert(out@ =~= reply_frame(success));
    out
}

} // verus!
