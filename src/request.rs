//! The `CONNECT` request that asks a proxy to open a tunnel to a target.

use vstd::prelude::*;
use vstd::string::StringSliceAdditionalSpecFns;

use crate::bytes::append_bytes;

verus! {

/// The ASCII digits of `n` in base ten, most significant first, without leading zeros.
pub open spec fn decimal(n: nat) -> Seq<u8>
    decreases n,
{
    if n < 10 {
        seq![(48 + n) as u8]
    } else {
        decimal(n / 10).push((48 + n % 10) as u8)
    }
}

/// Writes `n` in base ten.
pub fn decimal_bytes(n: u16) -> (r: Vec<u8>)
    ensures
        r@ == decimal(n as nat),
    decreases n,
{
    if n < 10 {
        let mut r: Vec<u8> = Vec::new();
        r.push(48 + n as u8);
        r
    } else {
        let mut r = decimal_bytes(n / 10);
        r.push(48 + (n % 10) as u8);
        r
    }
}

/// `CONNECT `
pub open spec fn connect_word() -> Seq<u8> {
    seq![67u8, 79, 78, 78, 69, 67, 84, 32]
}

/// ` HTTP/1.1` and a line break.
pub open spec fn version_line_end() -> Seq<u8> {
    seq![32u8, 72, 84, 84, 80, 47, 49, 46, 49, 13, 10]
}

/// `Host: `
pub open spec fn host_word() -> Seq<u8> {
    seq![72u8, 111, 115, 116, 58, 32]
}

/// `Proxy-Authorization: `
pub open spec fn proxy_authorization_word() -> Seq<u8> {
    seq![80u8, 114, 111, 120, 121, 45, 65, 117, 116, 104, 111, 114, 105, 122, 97, 116, 105, 111,
    110, 58, 32]
}

/// A carriage return and a line feed.
pub open spec fn crlf() -> Seq<u8> {
    seq![13u8, 10]
}

/// `host:port`, the authority that a tunnel is asked for.
pub open spec fn authority(host: Seq<u8>, port: u16) -> Seq<u8> {
    host + seq![58u8] + decimal(port as nat)
}

/// The full request that asks a proxy for a tunnel to `host:port`:
/// `CONNECT host:port HTTP/1.1`, a `Host: host:port` header, a `Proxy-Authorization` header
/// when the proxy has credentials, and the blank line that ends the head.
pub open spec fn connect_request(host: Seq<u8>, port: u16, authorization: Option<Seq<u8>>) -> Seq<
    u8,
> {
    let auth_line = match authorization {
        Some(v) => proxy_authorization_word() + v + crlf(),
        None => Seq::empty(),
    };
    connect_word() + authority(host, port) + version_line_end() + host_word() + authority(
        host,
        port,
    ) + crlf() + auth_line + crlf()
}

/// Appends `host:port` to `out`.
fn append_authority(out: &mut Vec<u8>, host: &[u8], port: u16)
    ensures
        final(out)@ == old(out)@ + authority(host@, port),
{
    append_bytes(out, host);
    out.push(58);
    let digits = decimal_bytes(port);
    append_bytes(out, digits.as_slice());
    assert(final(out)@ =~= old(out)@ + authority(host@, port));
}

/// Builds the request that asks a proxy for a tunnel to `host:port`.
pub fn connect_request_bytes(host: &str, port: u16, authorization: Option<&[u8]>) -> (r: Vec<u8>)
    ensures
        r@ == connect_request(
            host.spec_bytes(),
            port,
            match authorization {
                Some(v) => Some(v@),
                None => None,
            },
        ),
{
    let h = host.as_bytes();
    let mut r: Vec<u8> = vec![67, 79, 78, 78, 69, 67, 84, 32];
    append_authority(&mut r, h, port);
    append_bytes(&mut r, vec![32, 72, 84, 84, 80, 47, 49, 46, 49, 13, 10].as_slice());
    append_bytes(&mut r, vec![72, 111, 115, 116, 58, 32].as_slice());
    append_authority(&mut r, h, port);
    r.push(13);
    r.push(10);
    let ghost head = r@;
    match authorization {
        Some(v) => {
            append_bytes(
                &mut r,
                vec![80, 114, 111, 120, 121, 45, 65, 117, 116, 104, 111, 114, 105, 122, 97, 116, 105,
                111, 110, 58, 32].as_slice(),
            );
            append_bytes(&mut r, v);
            r.push(13);
            r.push(10);
        },
        None => {},
    }
    r.push(13);
    r.push(10);
    proof {
        let auth = match authorization {
            Some(v) => Some(v@),
            None => None,
        };
        assert(r@ =~= connect_request(host.spec_bytes(), port, auth));
    }
    r
}

} // verus!
