//! Method negotiation: the greeting's version check and the selection of
//! the one supported authentication method, "no authentication" (0).

use vstd::prelude::*;

use crate::error::SocksError;

verus! {

/// The only method identifier this proxy ever selects.
pub const NO_AUTH_METHOD: u8 = 0;

/// Whether a declared method list offers the no-authentication method.
pub open spec fn has_no_auth(methods: Seq<u8>) -> bool {
    exists|i: int| 0 <= i < methods.len() && methods[i] == 0u8
}

/// The two-byte greeting reply: version 5, selected method 0.
pub open spec fn greeting_reply() -> Seq<u8> {
    seq![5u8, 0u8]
}

/// Accepts a greeting whose declared protocol version is 4 or 5 and
/// rejects every other version.
pub fn check_greeting_version(version: u8) -> (r: Result<(), SocksError>)
    ensures
        version == 4 || version == 5 ==> r is Ok,
        version != 4 && version != 5 ==> (r matches Err(e) && e == SocksError::ProtocolVersionMismatch),
{
    if version != 4 && version != 5 {
        Err(SocksError::ProtocolVersionMismatch)
    } else {
        Ok(())
    }
}

/// Selects the no-authentication method when the client offers it, and
/// fails with `NoAcceptableMethod` when it does not.
pub fn select_method(methods: &Vec<u8>) -> (r: Result<u8, SocksError>)
    ensures
        has_no_auth(methods@) ==> (r matches Ok(m) && m == NO_AUTH_METHOD),
        !has_no_auth(methods@) ==> (r matches Err(e) && e == SocksError::NoAcceptableMethod),
{
    let mut found = false;
    let mut i: usize = 0;
    while i < methods.len()
        invariant
            i <= methods@.len(),
            found <==> exists|j: int| 0 <= j < i && methods@[j] == 0u8,
        decreases methods@.len() - i,
    {
        if methods[i] == NO_AUTH_METHOD {
            found = true;
        }
        i = i + 1;
    }
    if found {
        Ok(NO_AUTH_METHOD)
    } else {
        Err(SocksError::NoAcceptableMethod)
    }
}

/// Builds the greeting reply that follows a successful selection.
pub fn method_reply() -> (r: Vec<u8>)
    ensures
        r@ == greeting_reply(),
{
    let mut out: Vec<u8> = Vec::new();
    out.push(5);
    out.push(0);
    assert(out@ =~= greeting_reply());
    out
}

} // verus!
