use ws_client::client::{client, client_with_config, destination};
use ws_client::connector::{connect_to_some, AddressRace, RaceAction};
use ws_client::record::{Dialer, Handshaker, RecordingDialer, RecordingHandshaker};
use ws_client::error::{Error, HttpFormatError, TlsError, UrlError};
use ws_client::message::{find_header, status_is_redirection, value_is_text, Header, Response, Version};
use ws_client::mode::{default_port, target_port, uri_mode, Mode};
use ws_client::plain;
use ws_client::redirect::{follow_redirects, Next, Redirects};
use ws_client::request::{HandshakeRequest, IntoClientRequest, ParsedRequest};
use ws_client::tls::{native, rustls, AutoStream, TlsWrapper, Wrapped};
use ws_client::uri::{parse_uri, parse_uri_bytes, Uri};

fn uri(s: &str) -> Uri {
    parse_uri(s).unwrap()
}

fn redirect_to(status: u16, location: &[u8]) -> Error {
    Error::Http(Response {
        status,
        headers: vec![
            Header { name: "server".to_string(), value: b"stub".to_vec() },
            Header { name: "location".to_string(), value: location.to_vec() },
        ],
    })
}

fn redirect_without_location(status: u16) -> Error {
    Error::Http(Response {
        status,
        headers: vec![Header { name: "server".to_string(), value: b"stub".to_vec() }],
    })
}

#[test]
fn uri_parts_are_read() {
    let u = uri("wss://example.com:9000/chat?x=1");
    assert_eq!(u.text, "wss://example.com:9000/chat?x=1");
    assert_eq!(u.scheme.as_deref(), Some("wss"));
    assert_eq!(u.host.as_deref(), Some("example.com"));
    assert_eq!(u.port, Some(9000));
    let p = uri("/only/a/path");
    assert!(p.scheme.is_none());
    assert!(p.host.is_none());
    assert!(p.port.is_none());
}

#[test]
fn invalid_uri_is_format_error() {
    assert!(matches!(parse_uri("ws://exa mple.com"), Err(Error::HttpFormat(HttpFormatError::InvalidUri))));
    assert!(matches!(parse_uri(""), Err(Error::HttpFormat(HttpFormatError::InvalidUri))));
    assert!(matches!(parse_uri_bytes(b"wss://\x01"), Err(Error::HttpFormat(HttpFormatError::InvalidUri))));
}

#[test]
fn uri_mode_table() {
    assert_eq!(uri_mode(&uri("ws://example.com")).unwrap(), Mode::Plain);
    assert_eq!(uri_mode(&uri("wss://example.com")).unwrap(), Mode::Tls);
    for (s, scheme) in [
        ("http://example.com", "http"),
        ("https://example.com", "https"),
        ("ftp://example.com", "ftp"),
        ("wsss://example.com", "wsss"),
    ] {
        match uri_mode(&uri(s)) {
            Err(Error::Url(UrlError::UnsupportedUrlScheme(Some(named)))) => assert_eq!(named, scheme),
            other => panic!("{}: {:?}", s, other),
        }
    }
    assert!(matches!(uri_mode(&uri("/path")), Err(Error::Url(UrlError::UnsupportedUrlScheme(None)))));
}

#[test]
fn default_ports() {
    assert_eq!(default_port(Mode::Plain), 80);
    assert_eq!(default_port(Mode::Tls), 443);
    assert_eq!(target_port(&uri("wss://example.com"), Mode::Tls), 443);
    assert_eq!(target_port(&uri("ws://example.com"), Mode::Plain), 80);
    assert_eq!(target_port(&uri("ws://example.com:8080"), Mode::Plain), 8080);
    assert_eq!(target_port(&uri("wss://example.com:80"), Mode::Tls), 80);
}

#[test]
fn destination_of_targets() {
    let d = destination(&uri("wss://example.com/socket")).unwrap();
    assert_eq!((d.host.as_str(), d.port, d.mode), ("example.com", 443, Mode::Tls));
    let d = destination(&uri("ws://localhost")).unwrap();
    assert_eq!((d.host.as_str(), d.port, d.mode), ("localhost", 80, Mode::Plain));
    let d = destination(&uri("ws://127.0.0.1:3012")).unwrap();
    assert_eq!((d.host.as_str(), d.port, d.mode), ("127.0.0.1", 3012, Mode::Plain));
    match destination(&uri("http://example.com")) {
        Err(Error::Url(UrlError::UnsupportedUrlScheme(Some(named)))) => assert_eq!(named, "http"),
        other => panic!("{:?}", other.err()),
    }
    assert!(matches!(destination(&uri("/chat")), Err(Error::Url(UrlError::UnsupportedUrlScheme(None)))));
}

fn assert_get_of(r: HandshakeRequest, text: &str) {
    assert_eq!(r.method, "GET");
    assert_eq!(r.version, Version::Http11);
    assert!(r.headers.is_empty());
    assert_eq!(r.uri.text, uri(text).text);
}

#[test]
fn normalise_every_input_form() {
    let s = "ws://localhost:3012/socket";
    assert_get_of(s.into_client_request().unwrap(), s);
    let owned = s.to_string();
    assert_get_of((&owned).into_client_request().unwrap(), s);
    assert_get_of(owned.into_client_request().unwrap(), s);
    let u = uri(s);
    assert_get_of((&u).into_client_request().unwrap(), s);
    assert_get_of(u.into_client_request().unwrap(), s);
    let url = url::Url::parse(s).unwrap();
    assert_get_of((&url).into_client_request().unwrap(), s);
    assert_get_of(url.into_client_request().unwrap(), s);
}

#[test]
fn normalise_keeps_built_request() {
    let q = HandshakeRequest {
        method: "GET".to_string(),
        uri: uri("wss://example.com/a"),
        version: Version::Http2,
        headers: vec![Header { name: "origin".to_string(), value: b"x".to_vec() }],
    };
    let r = q.into_client_request().unwrap();
    assert_eq!(r.method, "GET");
    assert_eq!(r.version, Version::Http2);
    assert_eq!(r.uri.text, "wss://example.com/a");
    assert_eq!(r.headers.len(), 1);
    assert_eq!(r.headers[0].value, b"x".to_vec());
}

#[test]
fn normalise_rejects_bad_text() {
    assert!(matches!("not a uri".into_client_request(), Err(Error::Url(UrlError::InvalidUri))));
    assert!(matches!("".into_client_request(), Err(Error::Url(UrlError::InvalidUri))));
    assert!(matches!("ws://exa mple.com".to_string().into_client_request(), Err(Error::Url(UrlError::InvalidUri))));
    let p = ParsedRequest { method: Some("GET".to_string()), path: Some("/a b".to_string()), version: Some(1), headers: vec![] };
    assert!(matches!(p.into_client_request(), Err(Error::Url(UrlError::InvalidUri))));
}

#[test]
fn normalise_parsed_request() {
    let mut headers = [httparse::EMPTY_HEADER; 4];
    let mut raw = httparse::Request::new(&mut headers);
    raw.parse(b"GET /chat HTTP/1.1\r\nHost: example.com\r\n\r\n").unwrap();
    let r = raw.into_client_request().unwrap();
    assert_eq!(r.method, "GET");
    assert_eq!(r.uri.text, "/chat");
    assert_eq!(r.headers.len(), 1);
    assert_eq!(r.headers[0].value, b"example.com".to_vec());

    let p = ParsedRequest { method: Some("POST".to_string()), path: Some("/".to_string()), version: Some(1), headers: vec![] };
    let r = p.into_client_request().unwrap();
    assert_eq!(r.method, "POST");
    assert_eq!(r.version, Version::Http11);
    let p = ParsedRequest { method: Some("GET".to_string()), path: Some("/".to_string()), version: Some(0), headers: vec![] };
    assert_eq!(p.into_client_request().unwrap().version, Version::Http10);
    let p = ParsedRequest { method: Some("GET".to_string()), path: None, version: Some(1), headers: vec![] };
    assert!(matches!(p.into_client_request(), Err(Error::Url(UrlError::IncompleteRequest))));
    let p = ParsedRequest { method: None, path: Some("/".to_string()), version: Some(1), headers: vec![] };
    assert!(matches!(p.into_client_request(), Err(Error::Url(UrlError::IncompleteRequest))));
}

#[test]
fn client_keeps_stream_and_config() {
    let start = client_with_config("ws://example.com/x", vec![1u8, 2, 3], Some(7u32)).unwrap();
    assert_eq!(start.stream, vec![1u8, 2, 3]);
    assert_eq!(start.config, Some(7u32));
    assert_eq!(start.request.method, "GET");
    let start = client::<_, u32, _>("ws://example.com/x", 5u8).unwrap();
    assert_eq!(start.stream, 5u8);
    assert!(start.config.is_none());
    assert!(client::<u8, u32, _>("::bad::", 5u8).is_err());
}

fn race(outcomes: &[bool], target: &str) -> (Vec<usize>, RaceAction) {
    let mut r = AddressRace::new(outcomes.len(), &uri(target)).unwrap();
    let mut tried = Vec::new();
    let mut action = r.start();
    while let RaceAction::Try(i) = action {
        tried.push(i);
        action = r.advance(outcomes[i]);
    }
    (tried, action)
}

#[test]
fn race_stops_at_first_success() {
    let (tried, action) = race(&[false, false, true, false, true], "wss://example.com");
    assert_eq!(tried, vec![0, 1, 2]);
    assert!(matches!(action, RaceAction::Use(2)));
    let (tried, action) = race(&[true, true], "ws://example.com");
    assert_eq!(tried, vec![0]);
    assert!(matches!(action, RaceAction::Use(0)));
}

#[test]
fn race_exhaustion_names_target() {
    let (tried, action) = race(&[false, false, false], "ws://example.com:81/x");
    assert_eq!(tried, vec![0, 1, 2]);
    match action {
        RaceAction::GiveUp(Error::Url(UrlError::UnableToConnect(t))) => assert_eq!(t, "ws://example.com:81/x"),
        other => panic!("{:?}", other),
    }
    let (tried, action) = race(&[], "ws://example.com");
    assert!(tried.is_empty());
    assert!(matches!(action, RaceAction::GiveUp(Error::Url(UrlError::UnableToConnect(_)))));
}

#[test]
fn race_domain_is_target_host() {
    let r = AddressRace::new(2, &uri("wss://example.org:444/")).unwrap();
    assert_eq!(r.domain(), "example.org");
    assert!(matches!(AddressRace::new(1, &uri("/x")), Err(Error::Url(UrlError::NoHostName))));
}

/// Runs the driver against a stub engine that reports `redirects` redirects
/// and then success; returns the attempts made and whether it succeeded.
fn drive(redirects: usize, max_redirects: u8) -> (usize, Result<Vec<String>, Error>) {
    let mut d = Redirects::start("ws://host0.example/", max_redirects).unwrap();
    let mut attempts = 0;
    let mut seen = Vec::new();
    loop {
        let req = d.request();
        seen.push(req.uri.text.clone());
        attempts += 1;
        if attempts > redirects {
            return (attempts, Ok(seen));
        }
        let err = redirect_to(302, format!("ws://host{}.example/", attempts).as_bytes());
        match d.on_failure(err) {
            Next::Retry(next) => d = next,
            Next::Fail(e) => return (attempts, Err(e)),
        }
    }
}

#[test]
fn redirects_within_budget_succeed() {
    let (attempts, r) = drive(2, 3);
    assert_eq!(attempts, 3);
    assert_eq!(r.unwrap(), vec!["ws://host0.example/", "ws://host1.example/", "ws://host2.example/"]);
    let (attempts, r) = drive(3, 3);
    assert_eq!(attempts, 4);
    assert!(r.is_ok());
    let (attempts, r) = drive(0, 0);
    assert_eq!(attempts, 1);
    assert!(r.is_ok());
}

#[test]
fn redirects_beyond_budget_fail() {
    let (attempts, r) = drive(4, 3);
    assert_eq!(attempts, 4);
    match r {
        Err(Error::Http(res)) => {
            assert_eq!(res.status, 302);
            assert_eq!(find_header(&res.headers, &"location".to_string()).unwrap(), &b"ws://host4.example/".to_vec());
        }
        other => panic!("{:?}", other),
    }
    let (attempts, r) = drive(1, 0);
    assert_eq!(attempts, 1);
    assert!(matches!(r, Err(Error::Http(_))));
}

#[test]
fn redirect_location_name_ignores_case() {
    let d = Redirects::start("ws://example.com/", 2).unwrap();
    let err = Error::Http(Response {
        status: 301,
        headers: vec![Header { name: "Location".to_string(), value: b"ws://other.example/".to_vec() }],
    });
    match d.on_failure(err) {
        Next::Retry(d) => assert_eq!(d.uri().text, "ws://other.example/"),
        _ => panic!("expected a retry"),
    }
}

#[test]
fn redirect_without_location_stops() {
    let d = Redirects::start("ws://example.com/", 5).unwrap();
    match d.on_failure(redirect_without_location(301)) {
        Next::Fail(Error::Http(res)) => assert_eq!(res.status, 301),
        _ => panic!("expected the unchanged error"),
    }
}

#[test]
fn redirect_keeps_method_and_headers() {
    let q = HandshakeRequest {
        method: "GET".to_string(),
        uri: uri("ws://a.example/"),
        version: Version::Http11,
        headers: vec![Header { name: "sec-websocket-protocol".to_string(), value: b"chat".to_vec() }],
    };
    let d = Redirects::new(q, 2);
    assert_eq!(d.attempt(), 0);
    assert_eq!(d.max_redirects(), 2);
    let d = match d.on_failure(redirect_to(307, b"wss://b.example:9443/next")) {
        Next::Retry(d) => d,
        _ => panic!("expected a retry"),
    };
    assert_eq!(d.attempt(), 1);
    assert_eq!(d.uri().text, "wss://b.example:9443/next");
    let r = d.request();
    assert_eq!(r.uri.text, "wss://b.example:9443/next");
    assert_eq!(r.method, "GET");
    assert_eq!(r.headers.len(), 1);
    assert_eq!(r.headers[0].name, "sec-websocket-protocol");
    assert_eq!(r.headers[0].value, b"chat".to_vec());
}

#[test]
fn non_redirect_errors_pass_through() {
    let d = Redirects::start("ws://example.com/", 3).unwrap();
    assert!(matches!(d.on_failure(redirect_to(404, b"ws://x/")), Next::Fail(Error::Http(_))));
    let d = Redirects::start("ws://example.com/", 3).unwrap();
    assert!(matches!(d.on_failure(Error::Io("reset".to_string())), Next::Fail(Error::Io(_))));
}

#[test]
fn bad_location_values() {
    let d = Redirects::start("ws://example.com/", 3).unwrap();
    assert!(matches!(d.on_failure(redirect_to(302, b"ws://x/\x7f")), Next::Fail(Error::HttpFormat(HttpFormatError::InvalidHeaderValue))));
    let d = Redirects::start("ws://example.com/", 3).unwrap();
    assert!(matches!(d.on_failure(redirect_to(302, b"ws://a b/")), Next::Fail(Error::HttpFormat(HttpFormatError::InvalidUri))));
}

#[test]
fn message_helpers() {
    assert!(status_is_redirection(300));
    assert!(status_is_redirection(399));
    assert!(!status_is_redirection(299));
    assert!(!status_is_redirection(400));
    assert!(value_is_text(b"a\tb ~"));
    assert!(!value_is_text(b"a\nb"));
    assert!(!value_is_text(&[0xc3, 0xa9]));
    let hs = vec![
        Header { name: "location".to_string(), value: b"first".to_vec() },
        Header { name: "location".to_string(), value: b"second".to_vec() },
    ];
    assert_eq!(find_header(&hs, &"location".to_string()).unwrap(), &b"first".to_vec());
    assert!(find_header(&hs, &"server".to_string()).is_none());
    let mixed = vec![Header { name: "Location".to_string(), value: b"up".to_vec() }];
    assert_eq!(find_header(&mixed, &"location".to_string()).unwrap(), &b"up".to_vec());
    assert_eq!(find_header(&mixed, &"LOCATION".to_string()).unwrap(), &b"up".to_vec());
    assert!(find_header(&mixed, &"locatio".to_string()).is_none());
}

#[test]
fn plain_wrapper_passes_stream_through() {
    let stream = vec![9u8, 8, 7];
    let w: Wrapped<Vec<u8>, ()> = plain::Wrapper.wrap_stream(stream.clone(), "example.com", Mode::Plain).unwrap();
    assert!(matches!(w, Wrapped::Ready(AutoStream::Plain(ref s)) if s == &stream));
    let r: Result<Wrapped<Vec<u8>, ()>, Error> = plain::Wrapper.wrap_stream(stream, "example.com", Mode::Tls);
    assert!(matches!(r, Err(Error::Url(UrlError::TlsFeatureNotEnabled))));
}

#[test]
fn backends_pass_plain_streams_through() {
    let w: Wrapped<Vec<u8>, ()> = native::Wrapper.wrap_stream(vec![1u8, 2], "example.com", Mode::Plain).unwrap();
    match w {
        Wrapped::Ready(s) => {
            assert_eq!(s.mode(), Mode::Plain);
            assert_eq!(s.into_plain(), Some(vec![1u8, 2]));
        }
        _ => panic!("expected a ready stream"),
    }
    let w: Wrapped<Vec<u8>, ()> = rustls::Wrapper.wrap_stream(vec![3u8], "example.com", Mode::Plain).unwrap();
    assert!(matches!(w, Wrapped::Ready(AutoStream::Plain(ref s)) if s == &vec![3u8]));
    let w: Wrapped<u8, ()> = native::Wrapper.wrap_stream(4u8, "example.com", Mode::Tls).unwrap();
    assert!(matches!(w, Wrapped::NeedsTls(4u8)));
}

#[test]
fn rustls_backend_checks_name() {
    let w: Result<Wrapped<u8, ()>, Error> = rustls::Wrapper.wrap_stream(1u8, "example.com", Mode::Tls);
    assert!(matches!(w, Ok(Wrapped::NeedsTls(1u8))));
    let w: Result<Wrapped<u8, ()>, Error> = rustls::Wrapper.wrap_stream(1u8, "not a name!", Mode::Tls);
    assert!(matches!(w, Err(Error::Tls(TlsError::InvalidDnsName))));
    let s: AutoStream<u8, u16> = AutoStream::Tls(3);
    assert_eq!(s.mode(), Mode::Tls);
    assert_eq!(s.into_plain(), None);
}

struct StubDialer {
    outcomes: Vec<bool>,
    tried: Vec<usize>,
    domains: Vec<String>,
}

impl Dialer<usize> for StubDialer {
    fn dial(&mut self, index: usize, domain: &String) -> Option<usize> {
        self.tried.push(index);
        self.domains.push(domain.clone());
        if self.outcomes[index] { Some(1000 + index) } else { None }
    }
}

fn dialer(outcomes: Vec<bool>) -> RecordingDialer<usize, StubDialer> {
    RecordingDialer::new(StubDialer { outcomes, tried: vec![], domains: vec![] })
}

#[test]
fn connect_to_some_keeps_first_success() {
    let mut d = dialer(vec![false, false, true, true, false]);
    let r = connect_to_some(&mut d, 5, &uri("wss://example.com:8443/"));
    assert_eq!(r.unwrap(), (2, 1002));
    let d = d.into_inner();
    assert_eq!(d.tried, vec![0, 1, 2]);
    assert!(d.domains.iter().all(|h| h == "example.com"));
}

#[test]
fn connect_to_some_exhausts_and_names_target() {
    let mut d = dialer(vec![false; 3]);
    match connect_to_some(&mut d, 3, &uri("ws://example.com/x")) {
        Err(Error::Url(UrlError::UnableToConnect(t))) => assert_eq!(t, "ws://example.com/x"),
        other => panic!("{:?}", other.err()),
    }
    assert_eq!(d.into_inner().tried, vec![0, 1, 2]);
    let mut d = dialer(vec![true]);
    assert!(matches!(connect_to_some(&mut d, 1, &uri("/x")), Err(Error::Url(UrlError::NoHostName))));
    assert!(d.into_inner().tried.is_empty());
    let mut d = dialer(vec![]);
    assert!(matches!(connect_to_some(&mut d, 0, &uri("ws://example.com/")), Err(Error::Url(UrlError::UnableToConnect(_)))));
    assert!(d.into_inner().tried.is_empty());
}

/// A handshake engine stub: redirects `redirects` times, then succeeds.
struct StubEngine {
    redirects: usize,
    with_location: bool,
    targets: Vec<String>,
}

impl Handshaker<&'static str> for StubEngine {
    fn attempt(&mut self, request: HandshakeRequest) -> Result<&'static str, Error> {
        self.targets.push(request.uri.text.clone());
        let n = self.targets.len();
        if n > self.redirects {
            return Ok("upgraded");
        }
        if self.with_location {
            Err(redirect_to(302, format!("ws://host{}.example/", n).as_bytes()))
        } else {
            Err(redirect_without_location(302))
        }
    }
}

fn engine(redirects: usize, with_location: bool) -> RecordingHandshaker<&'static str, StubEngine> {
    RecordingHandshaker::new(StubEngine { redirects, with_location, targets: vec![] })
}

#[test]
fn follow_redirects_within_budget() {
    let mut e = engine(2, true);
    assert_eq!(follow_redirects("ws://host0.example/", 3, &mut e).unwrap(), "upgraded");
    assert_eq!(e.into_inner().targets, vec!["ws://host0.example/", "ws://host1.example/", "ws://host2.example/"]);
    let mut e = engine(3, true);
    assert_eq!(follow_redirects("ws://host0.example/", 3, &mut e).unwrap(), "upgraded");
    assert_eq!(e.into_inner().targets.len(), 4);
}

#[test]
fn follow_redirects_beyond_budget() {
    let mut e = engine(5, true);
    match follow_redirects("ws://host0.example/", 2, &mut e) {
        Err(Error::Http(res)) => {
            assert_eq!(find_header(&res.headers, &"location".to_string()).unwrap(), &b"ws://host3.example/".to_vec());
        }
        other => panic!("{:?}", other.err()),
    }
    assert_eq!(e.into_inner().targets.len(), 3);
}

#[test]
fn follow_redirects_stops_without_location() {
    let mut e = engine(5, false);
    assert!(matches!(follow_redirects("ws://host0.example/", 5, &mut e), Err(Error::Http(_))));
    assert_eq!(e.into_inner().targets.len(), 1);
    let mut e = engine(0, true);
    assert!(matches!(follow_redirects("no uri", 5, &mut e), Err(Error::Url(UrlError::InvalidUri))));
    assert!(e.into_inner().targets.is_empty());
}
