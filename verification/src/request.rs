//! The request parser: the 4-byte command header and the two supported
//! address payloads (IPv4 and domain name).

use vstd::prelude::*;

use crate::codec::{be_port, copy_range, parse_port, Endpoint, Host};
use crate::error::SocksError;

verus! {

/// Whether a byte sequence is valid UTF-8.
pub uninterp spec fn utf8_ok(b: Seq<u8>) -> bool;

/// Relies on std::str::from_utf8: it returns `Ok` exactly on valid UTF-8,
/// and validity depends on the bytes alone.
#[verifier::external_body]
fn bytes_are_utf8(b: &Vec<u8>) -> (r: bool)
    ensures
        r == utf8_ok(b@),
{
    std::str::from_utf8(b.as_slice()).is_ok()
}

/// The address type of a CONNECT request this proxy accepts.
#[derive(Clone, Copy, Debug, PartialEq, Eq, Structural)]
pub enum AddrType {
    V4,
    Domain,
}

/// Validates the 4-byte request header `[VER, CMD, RSV, ATYP]`: version
/// must be 5, the reserved byte 0, the command CONNECT (1), and the
/// address type IPv4 (1) or domain name (3). Checks run in that order,
/// so the first violation names the error.
pub fn parse_request_header(header: &Vec<u8>) -> (r: Result<AddrType, SocksError>)
    requires
        header@.len() == 4,
    ensures
        header@[0] != 5 ==> (r matches Err(e) && e == SocksError::ProtocolVersionMismatch),
        header@[0] == 5 && header@[2] != 0 ==> (r matches Err(e) && e == SocksError::MalformedHeader),
        header@[0] == 5 && header@[2] == 0 && header@[1] != 1 ==> (r matches Err(e)
            && e == SocksError::UnsupportedCommand),
        header@[0] == 5 && header@[2] == 0 && header@[1] == 1 && header@[3] == 1 ==> (r
            matches Ok(a) && a == AddrType::V4),
        header@[0] == 5 && header@[2] == 0 && header@[1] == 1 && header@[3] == 3 ==> (r
            matches Ok(a) && a == AddrType::Domain),
        header@[0] == 5 && header@[2] == 0 && header@[1] == 1 && header@[3] != 1 && header@[3]
            != 3 ==> (r matches Err(e) && e == SocksError::UnsupportedAddressType),
{
    if header[0] != 5 {
        Err(SocksError::ProtocolVersionMismatch)
    } else if header[2] != 0 {
        Err(SocksError::MalformedHeader)
    } else if header[1] != 1 {
        Err(SocksError::UnsupportedCommand)
    } else if header[3] == 1 {
        Ok(AddrType::V4)
    } else if header[3] == 3 {
        Ok(AddrType::Domain)
    } else {
        Err(SocksError::UnsupportedAddressType)
    }
}

/// Whether an endpoint is the one an IPv4 payload `[A,B,C,D,PORT_HI,PORT_LO]`
/// describes.
pub open spec fn v4_endpoint(ep: Endpoint, b: Seq<u8>) -> bool {
    &&& ep.host matches Host::V4(a0, a1, a2, a3) && a0 == b[0] && a1 == b[1] && a2 == b[2]
        && a3 == b[3]
    &&& ep.port as int == be_port(b[4], b[5])
}

/// Whether an endpoint carries a domain name and a big-endian port.
pub open spec fn domain_endpoint(ep: Endpoint, name: Seq<u8>, hi: u8, lo: u8) -> bool {
    &&& ep.host matches Host::Domain(d) && d@ == name
    &&& ep.port as int == be_port(hi, lo)
}

/// Reads the 6-byte IPv4 payload: four address bytes, then the port in
/// big-endian order.
pub fn parse_ipv4_payload(payload: &Vec<u8>) -> (r: Endpoint)
    requires
        payload@.len() == 6,
    ensures
        v4_endpoint(r, payload@),
{
    Endpoint {
        host: Host::V4(payload[0], payload[1], payload[2], payload[3]),
        port: parse_port(payload[4], payload[5]),
    }
}

/// Reads a domain-name payload: the name bytes, kept verbatim, and the
/// port in big-endian order. A name that is not valid UTF-8 is a fatal
/// fault, `InvalidDomainEncoding`.
pub fn parse_domain_payload(name: &Vec<u8>, hi: u8, lo: u8) -> (r: Result<Endpoint, SocksError>)
    ensures
        utf8_ok(name@) ==> (r matches Ok(ep) && domain_endpoint(ep, name@, hi, lo)),
        !utf8_ok(name@) ==> (r matches Err(e) && e == SocksError::InvalidDomainEncoding),
{
    if bytes_are_utf8(name) {
        let owned = copy_range(name, 0, name.len());
        assert(owned@ =~= name@);
        Ok(Endpoint { host: Host::Domain(owned), port: parse_port(hi, lo) })
    } else {
        Err(SocksError::InvalidDomainEncoding)
    }
}

} // verus!
