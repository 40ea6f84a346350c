//! The forward proxy that connections go through.

use vstd::prelude::*;
use vstd::string::StringSliceAdditionalSpecFns;
use vstd::utf8::encode_utf8;

verus! {

/// A byte of base64's standard alphabet (`A-Z`, `a-z`, `0-9`, `+`, `/`) or its `=` pad.
pub open spec fn is_base64_byte(b: u8) -> bool {
    (65 <= b <= 90) || (97 <= b <= 122) || (48 <= b <= 57) || b == 43 || b == 47 || b == 61
}

/// The padded base64 text, in the standard alphabet, of the bytes `b`.
pub uninterp spec fn base64_of(b: Seq<u8>) -> Seq<u8>;

/// Relies on `base64::encode` (standard alphabet with padding): a function of the input
/// alone, four alphabet or pad characters for each started group of three input bytes.
/// Its output size must fit in `usize`, else it panics.
#[verifier::external_body]
fn base64_encode(b: &[u8]) -> (r: Vec<u8>)
    requires
        b@.len() <= usize::MAX / 2,
    ensures
        r@ == base64_of(b@),
        r@.len() == 4 * ((b@.len() + 2) / 3),
        forall|i: int| 0 <= i < r@.len() ==> is_base64_byte(#[trigger] r@[i]),
{
    base64::encode(b).into_bytes()
}

/// `Basic `
pub open spec fn basic_word() -> Seq<u8> {
    seq![66u8, 97, 115, 105, 99, 32]
}

/// The value of a `Proxy-Authorization` header for basic authentication: `Basic ` and the
/// base64 text of `username:password` in UTF-8.
pub open spec fn basic_header(username: Seq<char>, password: Seq<char>) -> Seq<u8> {
    basic_word() + base64_of(encode_utf8(username) + seq![58u8] + encode_utf8(password))
}

/// A header value may stand in a header line when it holds no carriage return or line feed.
pub open spec fn is_header_value(v: Seq<u8>) -> bool {
    forall|i: int| 0 <= i < v.len() ==> #[trigger] v[i] != 13 && v[i] != 10
}

/// Basic-authentication credentials for the proxy, kept as the header value they render to.
pub struct ProxyBasicAuthorization {
    header: Vec<u8>,
}

impl ProxyBasicAuthorization {
    #[verifier::type_invariant]
    spec fn inv(&self) -> bool {
        is_header_value(self.header@)
    }

    /// The header value that these credentials render to.
    pub closed spec fn header_spec(&self) -> Seq<u8> {
        self.header@
    }

    /// Renders `username` and `password` once; the value never changes afterwards.
    pub fn new(username: &str, password: &str) -> (r: Self)
        requires
            username.spec_bytes().len() + password.spec_bytes().len() < usize::MAX / 2,
        ensures
            r.header_spec() == basic_header(username@, password@),
    {
        let mut plain: Vec<u8> = Vec::new();
        crate::bytes::append_bytes(&mut plain, username.as_bytes());
        plain.push(58);
        crate::bytes::append_bytes(&mut plain, password.as_bytes());
        let encoded = base64_encode(plain.as_slice());
        let mut header: Vec<u8> = vec![66, 97, 115, 105, 99, 32];
        crate::bytes::append_bytes(&mut header, encoded.as_slice());
        assert(plain@ =~= encode_utf8(username@) + seq![58u8] + encode_utf8(password@));
        assert(header@ =~= basic_word() + encoded@);
        assert forall|i: int| 0 <= i < header@.len() implies #[trigger] header@[i] != 13
            && header@[i] != 10 by {
            if i >= 6 {
                assert(is_base64_byte(encoded@[i - 6]));
            }
        }
        ProxyBasicAuthorization { header }
    }

    /// The header value, with no line break in it.
    pub fn header_value(&self) -> (r: Vec<u8>)
        ensures
            r@ == self.header_spec(),
            is_header_value(r@),
    {
        proof {
            use_type_invariant(self);
        }
        self.header.clone()
    }
}

/// Where the proxy listens, and the credentials it asks for, if any.
pub struct ProxyInfo {
    host: String,
    port: u16,
    authorization: Option<ProxyBasicAuthorization>,
}

impl ProxyInfo {
    pub closed spec fn host_spec(&self) -> Seq<char> {
        self.host@
    }

    pub closed spec fn port_spec(&self) -> u16 {
        self.port
    }

    /// The `Proxy-Authorization` value that requests to this proxy carry, if any.
    pub closed spec fn header_spec(&self) -> Option<Seq<u8>> {
        match self.authorization {
            Some(a) => Some(a.header_spec()),
            None => None,
        }
    }

    pub fn new(host: String, port: u16, authorization: Option<ProxyBasicAuthorization>) -> (r:
        Self)
        ensures
            r.host_spec() == host@,
            r.port_spec() == port,
            r.header_spec() == match authorization {
                Some(a) => Some(a.header_spec()),
                None => None::<Seq<u8>>,
            },
    {
        ProxyInfo { host, port, authorization }
    }

    pub fn host(&self) -> (r: &str)
        ensures
            r@ == self.host_spec(),
    {
        self.host.as_str()
    }

    pub fn port(&self) -> (r: u16)
        ensures
            r == self.port_spec(),
    {
        self.port
    }

    pub fn authorization_header_value(&self) -> (r: Option<Vec<u8>>)
        ensures
            match r {
                Some(v) => self.header_spec() == Some(v@) && is_header_value(v@),
                None => self.header_spec() is None,
            },
    {
        match &self.authorization {
            Some(a) => Some(a.header_value()),
            None => None,
        }
    }
}

} // verus!
