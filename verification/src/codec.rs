//! The address codec: decimal rendering of numbers, big-endian ports,
//! and the `host:port` byte form of a target endpoint.

use vstd::prelude::*;

verus! {

/// The ASCII decimal digits of `n`, most significant first.
pub open spec fn dec_digits(n: nat) -> Seq<u8>
    decreases n,
{
    if n < 10 {
        seq![(n + 48) as u8]
    } else {
        dec_digits(n / 10) + seq![(n % 10 + 48) as u8]
    }
}

/// The value of a 16-bit big-endian port field.
pub open spec fn be_port(hi: u8, lo: u8) -> int {
    hi as int * 256 + lo as int
}

/// The dotted-quad rendering of an IPv4 address, as ASCII bytes.
pub open spec fn dotted_quad(a: u8, b: u8, c: u8, d: u8) -> Seq<u8> {
    dec_digits(a as nat) + seq![46u8] + dec_digits(b as nat) + seq![46u8]
        + dec_digits(c as nat) + seq![46u8] + dec_digits(d as nat)
}

/// The host part of a target endpoint: either a literal IPv4 address or
/// a domain name kept exactly as it appeared on the wire.
#[derive(Debug)]
pub enum Host {
    V4(u8, u8, u8, u8),
    Domain(Vec<u8>),
}

/// The ASCII bytes that name a host in a connect string.
pub open spec fn host_bytes(h: Host) -> Seq<u8> {
    match h {
        Host::V4(a, b, c, d) => dotted_quad(a, b, c, d),
        Host::Domain(name) => name@,
    }
}

/// A resolved connect target: host plus 16-bit port, immutable once parsed.
#[derive(Debug)]
pub struct Endpoint {
    pub host: Host,
    pub port: u16,
}

/// The `host:port` byte form of an endpoint, as handed to a dialer.
pub open spec fn endpoint_bytes(ep: Endpoint) -> Seq<u8> {
    host_bytes(ep.host) + seq![58u8] + dec_digits(ep.port as nat)
}

/// Appends the decimal digits of `n` to `out`.
pub fn push_decimal(n: u16, out: &mut Vec<u8>)
    ensures
        final(out)@ == old(out)@ + dec_digits(n as nat),
    decreases n,
{
    if n < 10 {
        out.push(n as u8 + 48);
    } else {
        push_decimal(n / 10, out);
        out.push((n % 10) as u8 + 48);
    }
}

/// Appends every byte of `src` to `out`.
pub fn push_all(src: &Vec<u8>, out: &mut Vec<u8>)
    ensures
        final(out)@ == old(out)@ + src@,
{
    let mut i: usize = 0;
    while i < src.len()
        invariant
            i <= src@.len(),
            out@ == old(out)@ + src@.subrange(0, i as int),
        decreases src@.len() - i,
    {
        out.push(src[i]);
        i = i + 1;
        assert(out@ =~= old(out)@ + src@.subrange(0, i as int));
    }
    assert(src@.subrange(0, src@.len() as int) =~= src@);
}

/// Copies the bytes of `src` in positions `start..end` into a fresh vector.
pub fn copy_range(src: &Vec<u8>, start: usize, end: usize) -> (r: Vec<u8>)
    requires
        start <= end <= src@.len(),
    ensures
        r@ == src@.subrange(start as int, end as int),
{
    let mut out: Vec<u8> = Vec::new();
    let mut i: usize = start;
    while i < end
        invariant
            start <= i <= end <= src@.len(),
            out@ == src@.subrange(start as int, i as int),
        decreases end - i,
    {
        out.push(src[i]);
        i = i + 1;
        assert(out@ =~= src@.subrange(start as int, i as int));
    }
    out
}

/// Reads a big-endian 16-bit port from its two wire bytes.
pub fn parse_port(hi: u8, lo: u8) -> (r: u16)
    ensures
        r as int == be_port(hi, lo),
{
    (hi as u16) * 256 + (lo as u16)
}

impl Endpoint {
    /// Renders the endpoint as the `host:port` connect string, in bytes.
    pub fn to_bytes(&self) -> (r: Vec<u8>)
        ensures
            r@ == endpoint_bytes(*self),
    {
        let mut out: Vec<u8> = Vec::new();
        match &self.host {
            Host::V4(a, b, c, d) => {
                push_decimal(*a as u16, &mut out);
                out.push(46);
                push_decimal(*b as u16, &mut out);
                out.push(46);
                push_decimal(*c as u16, &mut out);
                out.push(46);
                push_decimal(*d as u16, &mut out);
            }
            Host::Domain(name) => {
                push_all(name, &mut out);
            }
        }
        out.push(58);
        push_decimal(self.port, &mut out);
        assert(out@ =~= endpoint_bytes(*self));
        out
    }

    /// Builds a second endpoint with the same host and port, so that one
    /// copy can be kept in the session state while the other is dialed.
    pub fn duplicate(&self) -> (r: Endpoint)
        ensures
            self.host matches Host::V4(a, b, c, d) ==> (r.host matches Host::V4(x, y, z, w) && x
                == a && y == b && z == c && w == d),
            self.host matches Host::Domain(n) ==> (r.host matches Host::Domain(m) && m@ == n@),
            r.port == self.port,
    {
        let host = match &self.host {
            Host::V4(a, b, c, d) => Host::V4(*a, *b, *c, *d),
            Host::Domain(n) => {
                let copied = copy_range(n, 0, n.len());
                assert(copied@ =~= n@);
                Host::Domain(copied)
            }
        };
        Endpoint { host, port: self.port }
    }
}

} // verus!
