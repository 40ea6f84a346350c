//! Reading the proxy's answer to a `CONNECT` request: bytes come in pieces into a bounded
//! buffer, and after each piece the buffered bytes are parsed as a response head.

use vstd::prelude::*;

verus! {

/// How many bytes of response head a proxy may send before it is given up on.
pub const RESPONSE_BUFFER: usize = 1024;

/// How many header lines a response head may hold.
pub const MAX_HEADERS: usize = 10;

/// Why bytes are not a response head.
#[derive(Debug, Clone, Copy, PartialEq, Eq, Structural)]
pub enum HeadError {
    /// A header name holds a byte that names may not.
    HeaderName,
    /// A header value holds a byte that values may not.
    HeaderValue,
    /// A line ends in something other than a line break.
    NewLine,
    /// The status code is not three digits.
    Status,
    /// A token holds a byte that tokens may not.
    Token,
    /// The head holds more header lines than there is room for.
    TooManyHeaders,
    /// The protocol version is not HTTP/1.x.
    Version,
}

/// What parsing `b` as an HTTP/1.x response head, with room for `max_headers` headers, gives:
/// `Err` when the bytes cannot start a valid head, `Ok(None)` while the head is incomplete,
/// `Ok(Some(code))` with its status code once it is complete.
pub uninterp spec fn response_head(b: Seq<u8>, max_headers: nat) -> Result<Option<u16>, HeadError>;

/// Relies on `httparse::Response::parse`: its result depends on the bytes and on the number
/// of header slots alone, and a complete parse has read the status code.
#[verifier::external_body]
fn parse_response_head(b: &[u8], max_headers: usize) -> (r: Result<Option<u16>, HeadError>)
    ensures
        r == response_head(b@, max_headers as nat),
{
    let mut headers = vec![httparse::EMPTY_HEADER; max_headers];
    let mut res = httparse::Response::new(&mut headers);
    match res.parse(b) {
        Ok(httparse::Status::Complete(_)) => Ok(res.code),
        Ok(httparse::Status::Partial) => Ok(None),
        Err(httparse::Error::HeaderName) => Err(HeadError::HeaderName),
        Err(httparse::Error::HeaderValue) => Err(HeadError::HeaderValue),
        Err(httparse::Error::NewLine) => Err(HeadError::NewLine),
        Err(httparse::Error::Status) => Err(HeadError::Status),
        Err(httparse::Error::Token) => Err(HeadError::Token),
        Err(httparse::Error::TooManyHeaders) => Err(HeadError::TooManyHeaders),
        Err(httparse::Error::Version) => Err(HeadError::Version),
    }
}

/// Where a negotiation stands after a read.
#[derive(Debug, Clone, Copy, PartialEq, Eq, Structural)]
pub enum Progress {
    /// The head is not complete yet and the buffer has room: read again.
    Incomplete,
    /// The proxy opened the tunnel (a 2xx status).
    Accepted(u16),
    /// The proxy answered with another status.
    Refused(u16),
    /// The buffer filled up before the head was complete.
    TooLarge,
    /// The bytes are not a response head.
    Malformed(HeadError),
    /// The stream ended before the head was complete.
    Closed,
}

/// The decision on the bytes received so far.
pub open spec fn judge(received: Seq<u8>) -> Progress {
    match response_head(received, MAX_HEADERS as nat) {
        Err(e) => Progress::Malformed(e),
        Ok(Some(code)) => if 200 <= code < 300 {
            Progress::Accepted(code)
        } else {
            Progress::Refused(code)
        },
        Ok(None) => if received.len() >= RESPONSE_BUFFER {
            Progress::TooLarge
        } else {
            Progress::Incomplete
        },
    }
}

/// The decision after a read that delivered `chunk` on top of `received`; an empty read means
/// that the proxy closed the stream.
pub open spec fn step(received: Seq<u8>, chunk: Seq<u8>) -> Progress {
    if chunk.len() == 0 {
        Progress::Closed
    } else {
        judge(received + chunk)
    }
}

/// A head that is still incomplete once a read has filled the buffer ends the negotiation as
/// too large: no further read is made, and the buffer has no room left.
pub proof fn lemma_full_buffer_too_large(received: Seq<u8>, chunk: Seq<u8>)
    requires
        chunk.len() > 0,
        received.len() + chunk.len() == RESPONSE_BUFFER,
        response_head(received + chunk, MAX_HEADERS as nat) == Ok::<Option<u16>, HeadError>(None),
    ensures
        step(received, chunk) == Progress::TooLarge,
        RESPONSE_BUFFER - (received + chunk).len() == 0,
{
}

/// Only a complete head with a 2xx status opens the tunnel; any other complete head refuses
/// it with the status it carries.
pub proof fn lemma_status_decides(received: Seq<u8>, code: u16)
    requires
        response_head(received, MAX_HEADERS as nat) == Ok::<Option<u16>, HeadError>(Some(code)),
    ensures
        200 <= code < 300 ==> judge(received) == Progress::Accepted(code),
        !(200 <= code < 300) ==> judge(received) == Progress::Refused(code),
{
}

/// The bounded buffer of one negotiation.
pub struct ResponseReader {
    buf: Vec<u8>,
}

impl ResponseReader {
    #[verifier::type_invariant]
    spec fn inv(&self) -> bool {
        self.buf@.len() <= RESPONSE_BUFFER
    }

    /// The bytes received so far.
    pub closed spec fn received(&self) -> Seq<u8> {
        self.buf@
    }

    /// An empty buffer.
    pub fn new() -> (r: Self)
        ensures
            r.received() == Seq::<u8>::empty(),
    {
        ResponseReader { buf: Vec::new() }
    }

    /// How many more bytes the buffer takes.
    pub fn room(&self) -> (r: usize)
        ensures
            self.received().len() <= RESPONSE_BUFFER,
            r == RESPONSE_BUFFER - self.received().len(),
    {
        proof {
            use_type_invariant(self);
        }
        RESPONSE_BUFFER - self.buf.len()
    }

    /// Takes the bytes of one read, which fit in the room left, and decides.
    pub fn receive(&mut self, chunk: &[u8]) -> (r: Progress)
        requires
            old(self).received().len() + chunk@.len() <= RESPONSE_BUFFER,
        ensures
            final(self).received() == old(self).received() + chunk@,
            r == step(old(self).received(), chunk@),
    {
        if chunk.len() == 0 {
            assert(self.buf@ + chunk@ =~= self.buf@);
            return Progress::Closed;
        }
        proof {
            use_type_invariant(&*self);
        }
        let mut buf = self.buf.clone();
        assert(buf@ =~= self.buf@);
        crate::bytes::append_bytes(&mut buf, chunk);
        let r = match parse_response_head(buf.as_slice(), MAX_HEADERS) {
            Err(e) => Progress::Malformed(e),
            Ok(Some(code)) => if 200 <= code && code < 300 {
                Progress::Accepted(code)
            } else {
                Progress::Refused(code)
            },
            Ok(None) => if buf.len() >= RESPONSE_BUFFER {
                Progress::TooLarge
            } else {
                Progress::Incomplete
            },
        };
        *self = ResponseReader { buf };
        r
    }
}

} // verus!
