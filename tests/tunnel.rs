use proxy_tunnel::connector::{is_https, ProxyConnector, Start};
use proxy_tunnel::proxy::{ProxyBasicAuthorization, ProxyInfo};
use proxy_tunnel::request::{connect_request_bytes, decimal_bytes};
use proxy_tunnel::tunnel::{HeadError, Progress, ResponseReader, MAX_HEADERS, RESPONSE_BUFFER};

fn connector(auth: bool) -> ProxyConnector {
    let authorization = if auth {
        Some(ProxyBasicAuthorization::new("user", "pass"))
    } else {
        None
    };
    ProxyConnector::new(ProxyInfo::new("proxy.local".to_string(), 3128, authorization))
}

fn tunnel(c: &ProxyConnector, host: &str, port: u16) -> (Vec<u8>, ResponseReader) {
    match c.start(host, port, "https") {
        Start::Tunnel(t) => (t.request, t.reader),
        Start::PassThrough => panic!("https must be tunneled"),
    }
}

/// Plays a proxy that sends `reply` in pieces of at most `piece` bytes, each read taking no
/// more than the reader's room, until the reader decides.
fn play(reader: &mut ResponseReader, reply: &[u8], piece: usize) -> (Progress, usize) {
    let mut sent = 0;
    loop {
        let take = piece.min(reader.room()).min(reply.len() - sent);
        let p = reader.receive(&reply[sent..sent + take]);
        sent += take;
        if p != Progress::Incomplete {
            return (p, sent);
        }
    }
}

#[test]
fn decimal_of_ports() {
    assert_eq!(decimal_bytes(0), b"0".to_vec());
    assert_eq!(decimal_bytes(7), b"7".to_vec());
    assert_eq!(decimal_bytes(443), b"443".to_vec());
    assert_eq!(decimal_bytes(8080), b"8080".to_vec());
    assert_eq!(decimal_bytes(65535), b"65535".to_vec());
}

#[test]
fn request_without_credentials() {
    let r = connect_request_bytes("example.com", 443, None);
    assert_eq!(
        String::from_utf8(r).unwrap(),
        "CONNECT example.com:443 HTTP/1.1\r\nHost: example.com:443\r\n\r\n"
    );
}

#[test]
fn request_with_credentials() {
    let r = connect_request_bytes("example.com", 8443, Some(&b"Basic abc="[..]));
    assert_eq!(
        String::from_utf8(r).unwrap(),
        "CONNECT example.com:8443 HTTP/1.1\r\nHost: example.com:8443\r\n\
         Proxy-Authorization: Basic abc=\r\n\r\n"
    );
}

#[test]
fn basic_authorization_header() {
    let a = ProxyBasicAuthorization::new("user", "pass");
    assert_eq!(a.header_value(), b"Basic dXNlcjpwYXNz".to_vec());
    let b = ProxyBasicAuthorization::new("Aladdin", "open sesame");
    assert_eq!(b.header_value(), b"Basic QWxhZGRpbjpvcGVuIHNlc2FtZQ==".to_vec());
    assert!(!b.header_value().iter().any(|&c| c == b'\r' || c == b'\n'));
}

#[test]
fn proxy_info_accessors() {
    let p = ProxyInfo::new("proxy.local".to_string(), 3128, None);
    assert_eq!(p.host(), "proxy.local");
    assert_eq!(p.port(), 3128);
    assert_eq!(p.authorization_header_value(), None);
    let q = ProxyInfo::new(
        "10.0.0.1".to_string(),
        80,
        Some(ProxyBasicAuthorization::new("user", "pass")),
    );
    assert_eq!(q.authorization_header_value(), Some(b"Basic dXNlcjpwYXNz".to_vec()));
    let c = ProxyConnector::new(q);
    assert_eq!(c.proxy().host(), "10.0.0.1");
}

#[test]
fn scheme_recognition() {
    assert!(is_https("https"));
    assert!(!is_https("http"));
    assert!(!is_https("HTTPS"));
    assert!(!is_https("httpss"));
    assert!(!is_https(""));
}

#[test]
fn plaintext_schemes_pass_through() {
    let c = connector(true);
    assert!(matches!(c.start("example.com", 80, "http"), Start::PassThrough));
    assert!(matches!(c.start("example.com", 21, "ftp"), Start::PassThrough));
    assert!(matches!(c.start("example.com", 443, "htps"), Start::PassThrough));
}

#[test]
fn https_request_is_exact() {
    let (req, reader) = tunnel(&connector(false), "example.com", 443);
    assert_eq!(req, b"CONNECT example.com:443 HTTP/1.1\r\nHost: example.com:443\r\n\r\n".to_vec());
    assert_eq!(reader.room(), RESPONSE_BUFFER);
    let (req, _) = tunnel(&connector(true), "example.com", 443);
    assert_eq!(
        req,
        b"CONNECT example.com:443 HTTP/1.1\r\nHost: example.com:443\r\n\
          Proxy-Authorization: Basic dXNlcjpwYXNz\r\n\r\n"
            .to_vec()
    );
}

#[test]
fn accepted_one_byte_at_a_time() {
    let (_, mut reader) = tunnel(&connector(false), "example.com", 443);
    let reply = b"HTTP/1.1 200 Connection Established\r\n\r\n";
    let (p, sent) = play(&mut reader, reply, 1);
    assert_eq!(p, Progress::Accepted(200));
    assert_eq!(sent, reply.len());
}

#[test]
fn accepted_in_one_read() {
    let (_, mut reader) = tunnel(&connector(false), "example.com", 443);
    assert_eq!(
        reader.receive(b"HTTP/1.1 204 No Content\r\nVia: proxy\r\n\r\n"),
        Progress::Accepted(204)
    );
}

#[test]
fn refused_with_407() {
    let (_, mut reader) = tunnel(&connector(false), "example.com", 443);
    let reply = b"HTTP/1.1 407 Proxy Authentication Required\r\n\
                  Proxy-Authenticate: Basic realm=\"proxy\"\r\n\r\n";
    let (p, _) = play(&mut reader, reply, 7);
    assert_eq!(p, Progress::Refused(407));
}

#[test]
fn refused_with_redirect() {
    let mut reader = ResponseReader::new();
    assert_eq!(reader.receive(b"HTTP/1.0 302 Found\r\n\r\n"), Progress::Refused(302));
}

#[test]
fn garbage_head_fills_buffer() {
    let (_, mut reader) = tunnel(&connector(false), "example.com", 443);
    let mut reply = b"HTTP/1.1 200 OK\r\nX-Filler: ".to_vec();
    while reply.len() < 2000 {
        reply.push(b'a');
    }
    let (p, sent) = play(&mut reader, &reply, 100);
    assert_eq!(p, Progress::TooLarge);
    assert_eq!(sent, RESPONSE_BUFFER);
    assert_eq!(reader.room(), 0);
}

#[test]
fn head_incomplete_below_the_bound() {
    let mut reader = ResponseReader::new();
    assert_eq!(reader.receive(b"HTTP/1.1 200 OK\r\n"), Progress::Incomplete);
    assert_eq!(reader.room(), RESPONSE_BUFFER - 17);
}

#[test]
fn closed_stream() {
    let mut reader = ResponseReader::new();
    assert_eq!(reader.receive(b"HTTP/1.1 2"), Progress::Incomplete);
    assert_eq!(reader.receive(b""), Progress::Closed);
    assert_eq!(reader.room(), RESPONSE_BUFFER - 10);
}

#[test]
fn malformed_heads() {
    let mut reader = ResponseReader::new();
    assert_eq!(reader.receive(b"FTP/1.1 200 OK\r\n\r\n"), Progress::Malformed(HeadError::Version));
    let mut reader = ResponseReader::new();
    assert_eq!(reader.receive(b"HTTP/1.1 2x0 OK\r\n\r\n"), Progress::Malformed(HeadError::Status));
}

#[test]
fn too_many_headers() {
    let mut reply = b"HTTP/1.1 200 OK\r\n".to_vec();
    for i in 0..(MAX_HEADERS + 1) {
        reply.extend_from_slice(format!("X-H{}: v\r\n", i).as_bytes());
    }
    reply.extend_from_slice(b"\r\n");
    let mut reader = ResponseReader::new();
    assert_eq!(reader.receive(&reply), Progress::Malformed(HeadError::TooManyHeaders));
    let mut ok = b"HTTP/1.1 200 OK\r\n".to_vec();
    for i in 0..MAX_HEADERS {
        ok.extend_from_slice(format!("X-H{}: v\r\n", i).as_bytes());
    }
    ok.extend_from_slice(b"\r\n");
    let mut reader = ResponseReader::new();
    assert_eq!(reader.receive(&ok), Progress::Accepted(200));
}

#[test]
fn attempts_are_independent() {
    let c = connector(false);
    let (req1, mut reader1) = tunnel(&c, "one.example", 443);
    let (first, _) = play(&mut reader1, b"HTTP/1.1 407 No\r\n\r\n", 3);
    assert_eq!(first, Progress::Refused(407));
    let (req2, mut reader2) = tunnel(&c, "two.example", 8443);
    assert_eq!(reader2.room(), RESPONSE_BUFFER);
    assert_eq!(req1, b"CONNECT one.example:443 HTTP/1.1\r\nHost: one.example:443\r\n\r\n".to_vec());
    assert_eq!(
        req2,
        b"CONNECT two.example:8443 HTTP/1.1\r\nHost: two.example:8443\r\n\r\n".to_vec()
    );
    let (second, _) = play(&mut reader2, b"HTTP/1.1 200 OK\r\n\r\n", 5);
    assert_eq!(second, Progress::Accepted(200));
}
