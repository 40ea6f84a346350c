//! The decisions of a connection attempt through a forward proxy. The caller opens the stream
//! to the proxy, writes and reads it, and hands the bytes it read to the tunnel's reader.

use vstd::prelude::*;
use vstd::string::StringSliceAdditionalSpecFns;

use crate::proxy::ProxyInfo;
use crate::request::{connect_request, connect_request_bytes};
use crate::tunnel::ResponseReader;

verus! {

/// `https`
pub open spec fn https_word() -> Seq<u8> {
    seq![104u8, 116, 116, 112, 115]
}

/// Whether a target with this scheme is reached through a tunnel.
pub fn is_https(scheme: &str) -> (r: bool)
    ensures
        r == (scheme.spec_bytes() == https_word()),
{
    let w: Vec<u8> = vec![104, 116, 116, 112, 115];
    crate::bytes::bytes_equal(scheme.as_bytes(), w.as_slice())
}

/// A tunnel under negotiation: the request to write to the proxy, and the reader for its answer.
pub struct Tunnel {
    pub request: Vec<u8>,
    pub reader: ResponseReader,
}

/// How an attempt goes on once the proxy stream is open.
pub enum Start {
    /// Hand the proxy stream back as it is: the proxy relays plaintext requests itself.
    PassThrough,
    /// Ask the proxy for a tunnel, then wrap the stream in TLS for the target if it agrees.
    Tunnel(Tunnel),
}

/// Connects to targets through one proxy. It holds nothing but the proxy's description, so
/// attempts through it do not affect one another.
pub struct ProxyConnector {
    proxy: ProxyInfo,
}

impl ProxyConnector {
    pub closed spec fn proxy_spec(&self) -> ProxyInfo {
        self.proxy
    }

    pub fn new(proxy: ProxyInfo) -> (r: Self)
        ensures
            r.proxy_spec() == proxy,
    {
        ProxyConnector { proxy }
    }

    /// The proxy that every stream is opened to, in plaintext.
    pub fn proxy(&self) -> (r: &ProxyInfo)
        ensures
            *r == self.proxy_spec(),
    {
        &self.proxy
    }

    /// Decides what an attempt on `host:port` with `scheme` does once the proxy stream is open.
    /// Only `https` is tunneled; any other scheme passes the stream through with nothing
    /// written. A tunnel starts from an empty reader and a request made from this target and
    /// the proxy's credentials alone.
    pub fn start(&self, host: &str, port: u16, scheme: &str) -> (r: Start)
        ensures
            match r {
                Start::PassThrough => scheme.spec_bytes() != https_word(),
                Start::Tunnel(t) => {
                    &&& scheme.spec_bytes() == https_word()
                    &&& t.request@ == connect_request(
                        host.spec_bytes(),
                        port,
                        self.proxy_spec().header_spec(),
                    )
                    &&& t.reader.received() == Seq::<u8>::empty()
                },
            },
    {
        if !is_https(scheme) {
            return Start::PassThrough;
        }
        let header = self.proxy.authorization_header_value();
        let request = match &header {
            Some(v) => connect_request_bytes(host, port, Some(v.as_slice())),
            None => connect_request_bytes(host, port, None),
        };
        Start::Tunnel(Tunnel { request, reader: ResponseReader::new() })
    }
}

} // verus!
