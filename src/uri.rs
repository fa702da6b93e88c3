use vstd::prelude::*;
use vstd::string::StringSliceAdditionalSpecFns;

use crate::error::{Error, HttpFormatError};

verus! {

/// What the connection layer reads of a URI, as plain values.
#[derive(Debug)]
pub struct Uri {
    /// The canonical text of the URI.
    pub text: String,
    /// The scheme, if the URI has one.
    pub scheme: Option<String>,
    /// The host of the authority, if the URI has one.
    pub host: Option<String>,
    /// The explicit port, if the URI has one.
    pub port: Option<u16>,
}

/// The mathematical model of a [`Uri`].
pub ghost struct UriView {
    pub text: Seq<char>,
    pub scheme: Option<Seq<char>>,
    pub host: Option<Seq<char>>,
    pub port: Option<u16>,
}

pub open spec fn opt_view(o: Option<String>) -> Option<Seq<char>> {
    match o {
        Some(s) => Some(s@),
        None => None,
    }
}

impl View for Uri {
    type V = UriView;

    open spec fn view(&self) -> UriView {
        UriView {
            text: self.text@,
            scheme: opt_view(self.scheme),
            host: opt_view(self.host),
            port: self.port,
        }
    }
}

/// The URI that `http` parses from the bytes `b`, or `None` where it rejects them.
pub uninterp spec fn parsed_uri(b: Seq<u8>) -> Option<UriView>;

#[verifier::external_type_specification]
#[verifier::external_body]
pub struct ExInvalidUri(http::uri::InvalidUri);

/// Relies on `<http::Uri as TryFrom<&[u8]>>::try_from` (which `str::parse`
/// also uses), read back through `scheme_str`, `host`, `port_u16` and `Display`.
#[verifier::external_body]
fn http_parse_uri(b: &[u8]) -> (r: Result<Uri, http::uri::InvalidUri>)
    ensures
        match r {
            Ok(u) => parsed_uri(b@) == Some(u@),
            Err(_) => parsed_uri(b@) is None,
        },
{
    match http::Uri::try_from(b) {
        Ok(u) => Ok(Uri {
            text: u.to_string(),
            scheme: u.scheme_str().map(String::from),
            host: u.host().map(String::from),
            port: u.port_u16(),
        }),
        Err(e) => Err(e),
    }
}

/// The outcome of parsing the bytes `b` as a URI.
pub open spec fn uri_result(b: Seq<u8>) -> Result<UriView, Error> {
    match parsed_uri(b) {
        Some(u) => Ok(u),
        None => Err(Error::HttpFormat(HttpFormatError::InvalidUri)),
    }
}

/// Parses the bytes `b` as a URI; invalid ones are an `HttpFormat` error.
pub fn parse_uri_bytes(b: &[u8]) -> (r: Result<Uri, Error>)
    ensures
        match r {
            Ok(u) => uri_result(b@) == Ok::<UriView, Error>(u@),
            Err(e) => uri_result(b@) == Err::<UriView, Error>(e),
        },
{
    match http_parse_uri(b) {
        Ok(u) => Ok(u),
        Err(_) => Err(Error::HttpFormat(HttpFormatError::InvalidUri)),
    }
}

/// Parses the text `s` as a URI; invalid text is an `HttpFormat` error.
pub fn parse_uri(s: &str) -> (r: Result<Uri, Error>)
    ensures
        match r {
            Ok(u) => uri_result(s.spec_bytes()) == Ok::<UriView, Error>(u@),
            Err(e) => uri_result(s.spec_bytes()) == Err::<UriView, Error>(e),
        },
{
    parse_uri_bytes(s.as_bytes())
}

impl Uri {
    /// A copy of this URI.
    pub fn duplicate(&self) -> (r: Uri)
        ensures
            r@ == self@,
    {
        Uri {
            text: self.text.clone(),
            scheme: self.scheme.clone(),
            host: self.host.clone(),
            port: self.port,
        }
    }

    /// The host of this URI, or a URL error where it has none.
    pub fn host_name(&self) -> (r: Result<&String, Error>)
        ensures
            match r {
                Ok(h) => self.host == Some(*h),
                Err(e) => self.host is None && e == Error::Url(crate::error::UrlError::NoHostName),
            },
    {
        match &self.host {
            Some(h) => Ok(h),
            None => Err(Error::Url(crate::error::UrlError::NoHostName)),
        }
    }
}

} // verus!
