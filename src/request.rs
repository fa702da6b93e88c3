use vstd::prelude::*;
use vstd::string::StringSliceAdditionalSpecFns;
use vstd::utf8::encode_utf8;

use crate::error::{Error, UrlError};
use crate::message::{copy_headers, headers_view, Header, Version};
use crate::uri::{opt_view, parse_uri, parsed_uri, Uri, UriView};

verus! {

/// A client handshake request: method, target, version and header fields.
/// Its body is always empty.
#[derive(Debug)]
pub struct HandshakeRequest {
    pub method: String,
    pub uri: Uri,
    pub version: Version,
    pub headers: Vec<Header>,
}

/// The mathematical model of a [`HandshakeRequest`].
pub ghost struct RequestView {
    pub method: Seq<char>,
    pub uri: UriView,
    pub version: Version,
    pub headers: Seq<(Seq<char>, Seq<u8>)>,
}

impl View for HandshakeRequest {
    type V = RequestView;

    open spec fn view(&self) -> RequestView {
        RequestView {
            method: self.method@,
            uri: self.uri@,
            version: self.version,
            headers: headers_view(self.headers@),
        }
    }
}

pub open spec fn get_method() -> Seq<char> {
    seq!['G', 'E', 'T']
}

/// The request built from a bare target: `GET`, HTTP/1.1, no header fields.
pub open spec fn get_request(u: UriView) -> RequestView {
    RequestView { method: get_method(), uri: u, version: Version::Http11, headers: Seq::empty() }
}

/// The request normalised from the bytes of a target's text.
pub open spec fn bytes_request(b: Seq<u8>) -> Result<RequestView, Error> {
    match parsed_uri(b) {
        Some(u) => Ok(get_request(u)),
        None => Err(Error::Url(UrlError::InvalidUri)),
    }
}

/// The request normalised from a target's text.
pub open spec fn text_request(t: Seq<char>) -> Result<RequestView, Error> {
    bytes_request(encode_utf8(t))
}

pub open spec fn request_result_view(r: Result<HandshakeRequest, Error>) -> Result<RequestView, Error> {
    match r {
        Ok(q) => Ok(q@),
        Err(e) => Err(e),
    }
}

impl HandshakeRequest {
    /// A `GET` request for `uri`, HTTP/1.1, with no header fields.
    pub fn get(uri: Uri) -> (r: HandshakeRequest)
        ensures
            r@ == get_request(uri@),
    {
        let method = String::from_str("GET");
        proof {
            reveal_strlit("GET");
            assert(method@ =~= get_method());
        }
        let r = HandshakeRequest { method, uri, version: Version::Http11, headers: Vec::new() };
        assert(headers_view(r.headers@) =~= Seq::empty());
        r
    }

    /// A request with the given parts and an empty body.
    pub fn from_parts(method: &String, uri: Uri, version: Version, headers: &Vec<Header>) -> (r:
        HandshakeRequest)
        ensures
            r@ == (RequestView {
                method: method@,
                uri: uri@,
                version,
                headers: headers_view(headers@),
            }),
    {
        HandshakeRequest { method: method.clone(), uri, version, headers: copy_headers(headers) }
    }
}

/// Conversion of the forms a caller may name a target in into a [`HandshakeRequest`].
pub trait IntoClientRequest: Sized {
    /// Whether `r` is the outcome of normalising `self`.
    spec fn normalizes_to(self, r: Result<RequestView, Error>) -> bool;

    /// Normalises `self` into a request.
    fn into_client_request(self) -> (r: Result<HandshakeRequest, Error>)
        ensures
            self.normalizes_to(request_result_view(r)),
    ;
}

impl<'a> IntoClientRequest for &'a str {
    open spec fn normalizes_to(self, r: Result<RequestView, Error>) -> bool {
        r == bytes_request(self.spec_bytes())
    }

    fn into_client_request(self) -> (r: Result<HandshakeRequest, Error>) {
        match parse_uri(self) {
            Ok(u) => Ok(HandshakeRequest::get(u)),
            Err(_) => Err(Error::Url(UrlError::InvalidUri)),
        }
    }
}

impl<'a> IntoClientRequest for &'a String {
    open spec fn normalizes_to(self, r: Result<RequestView, Error>) -> bool {
        r == text_request(self@)
    }

    fn into_client_request(self) -> (r: Result<HandshakeRequest, Error>) {
        self.as_str().into_client_request()
    }
}

impl IntoClientRequest for String {
    open spec fn normalizes_to(self, r: Result<RequestView, Error>) -> bool {
        r == text_request(self@)
    }

    fn into_client_request(self) -> (r: Result<HandshakeRequest, Error>) {
        self.as_str().into_client_request()
    }
}

impl<'a> IntoClientRequest for &'a Uri {
    open spec fn normalizes_to(self, r: Result<RequestView, Error>) -> bool {
        r == Ok::<RequestView, Error>(get_request(self@))
    }

    fn into_client_request(self) -> (r: Result<HandshakeRequest, Error>) {
        Ok(HandshakeRequest::get(self.duplicate()))
    }
}

impl IntoClientRequest for Uri {
    open spec fn normalizes_to(self, r: Result<RequestView, Error>) -> bool {
        r == Ok::<RequestView, Error>(get_request(self@))
    }

    fn into_client_request(self) -> (r: Result<HandshakeRequest, Error>) {
        Ok(HandshakeRequest::get(self))
    }
}

impl IntoClientRequest for HandshakeRequest {
    open spec fn normalizes_to(self, r: Result<RequestView, Error>) -> bool {
        r == Ok::<RequestView, Error>(self@)
    }

    fn into_client_request(self) -> (r: Result<HandshakeRequest, Error>) {
        Ok(self)
    }
}

#[verifier::external_type_specification]
#[verifier::external_body]
pub struct ExUrl(url::Url);

/// The serialisation of the URL `u`.
pub uninterp spec fn url_text(u: url::Url) -> Seq<char>;

/// Relies on `url::Url::as_str`: the serialisation of the URL, which depends on
/// the URL alone.
pub assume_specification[ url::Url::as_str ](u: &url::Url) -> (r: &str)
    ensures
        r@ == url_text(*u),
;

impl<'a> IntoClientRequest for &'a url::Url {
    open spec fn normalizes_to(self, r: Result<RequestView, Error>) -> bool {
        r == text_request(url_text(*self))
    }

    fn into_client_request(self) -> (r: Result<HandshakeRequest, Error>) {
        let text = self.as_str();
        let r = text.into_client_request();
        assert(request_result_view(r) == bytes_request(text.spec_bytes()));
        r
    }
}

impl IntoClientRequest for url::Url {
    open spec fn normalizes_to(self, r: Result<RequestView, Error>) -> bool {
        r == text_request(url_text(self))
    }

    fn into_client_request(self) -> (r: Result<HandshakeRequest, Error>) {
        let text = self.as_str();
        let r = text.into_client_request();
        assert(request_result_view(r) == bytes_request(text.spec_bytes()));
        r
    }
}

/// A request as a low-level HTTP parser hands it over: each part may be
/// missing, and `version` is the minor version of HTTP/1.x.
#[derive(Debug)]
pub struct ParsedRequest {
    pub method: Option<String>,
    pub path: Option<String>,
    pub version: Option<u8>,
    pub headers: Vec<Header>,
}

/// The HTTP version that a parsed minor version of HTTP/1.x stands for.
pub open spec fn minor_version(v: u8) -> Version {
    if v == 0 {
        Version::Http10
    } else {
        Version::Http11
    }
}

/// The request that a parsed one normalises to: its method, its path read as
/// a URI, its version and its header fields. A missing part or a path that is
/// not a URI is a URL error.
pub open spec fn spec_from_parsed(p: ParsedRequest) -> Result<RequestView, Error> {
    match (opt_view(p.method), p.version, opt_view(p.path)) {
        (Some(m), Some(v), Some(t)) => match parsed_uri(encode_utf8(t)) {
            Some(u) => Ok(
                RequestView {
                    method: m,
                    uri: u,
                    version: minor_version(v),
                    headers: headers_view(p.headers@),
                },
            ),
            None => Err(Error::Url(UrlError::InvalidUri)),
        },
        _ => Err(Error::Url(UrlError::IncompleteRequest)),
    }
}

impl IntoClientRequest for ParsedRequest {
    open spec fn normalizes_to(self, r: Result<RequestView, Error>) -> bool {
        r == spec_from_parsed(self)
    }

    fn into_client_request(self) -> (r: Result<HandshakeRequest, Error>) {
        let ParsedRequest { method, path, version, headers } = self;
        match (method, version, path) {
            (Some(m), Some(v), Some(t)) => match parse_uri(t.as_str()) {
                Ok(uri) => {
                    let version = if v == 0 {
                        Version::Http10
                    } else {
                        Version::Http11
                    };
                    Ok(HandshakeRequest { method: m, uri, version, headers })
                },
                Err(_) => Err(Error::Url(UrlError::InvalidUri)),
            },
            _ => Err(Error::Url(UrlError::IncompleteRequest)),
        }
    }
}

#[verifier::external_type_specification]
#[verifier::external_body]
pub struct ExHttparseRequest<'h, 'b>(httparse::Request<'h, 'b>);

/// The parts of a low-level parsed request, as plain values.
pub uninterp spec fn parts_of(raw: httparse::Request<'_, '_>) -> ParsedRequest;

/// Relies on the public fields of `httparse::Request`, copied into plain values.
#[verifier::external_body]
fn httparse_parts(raw: &httparse::Request) -> (r: ParsedRequest)
    ensures
        r == parts_of(*raw),
{
    ParsedRequest {
        method: raw.method.map(String::from),
        path: raw.path.map(String::from),
        version: raw.version,
        headers: raw.headers.iter().map(|h| Header { name: String::from(h.name), value: h.value.to_vec() }).collect(),
    }
}

impl<'h, 'b> IntoClientRequest for httparse::Request<'h, 'b> {
    open spec fn normalizes_to(self, r: Result<RequestView, Error>) -> bool {
        r == spec_from_parsed(parts_of(self))
    }

    fn into_client_request(self) -> (r: Result<HandshakeRequest, Error>) {
        let parts = httparse_parts(&self);
        let ghost p = parts;
        let r = parts.into_client_request();
        assert(request_result_view(r) == spec_from_parsed(p));
        r
    }
}

} // verus!
