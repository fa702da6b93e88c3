use vstd::prelude::*;

use crate::message::Response;

verus! {

/// Errors of the malformed-input family.
#[derive(Debug)]
pub enum UrlError {
    /// The scheme is neither `ws` nor `wss`, or is absent; holds that scheme.
    UnsupportedUrlScheme(Option<String>),
    /// The text naming the target is not a valid URI.
    InvalidUri,
    /// A parsed request lacks its method, path or version.
    IncompleteRequest,
    /// The target URI has no host.
    NoHostName,
    /// Every resolved address failed; holds the text of the target URI.
    UnableToConnect(String),
    /// TLS was asked for where no TLS backend is in use.
    TlsFeatureNotEnabled,
}

/// Errors of the HTTP message family.
#[derive(Debug)]
pub enum HttpFormatError {
    /// The text is not a valid URI.
    InvalidUri,
    /// A header value holds bytes outside visible ASCII.
    InvalidHeaderValue,
}

/// Errors of the TLS family.
#[derive(Debug)]
pub enum TlsError {
    /// The target host is not a name that TLS can verify.
    InvalidDnsName,
    /// The TLS handshake failed, with the backend's description.
    Handshake(String),
}

/// The error type of the connection layer.
#[derive(Debug)]
pub enum Error {
    /// Malformed input, unsupported scheme, missing host, exhausted addresses.
    Url(UrlError),
    /// An HTTP-level failure with the response that caused it.
    Http(Response),
    /// A URI or header value that could not be parsed.
    HttpFormat(HttpFormatError),
    /// A TLS negotiation failure, or a name TLS cannot verify.
    Tls(TlsError),
    /// A transport (TCP/TLS I/O) failure.
    Io(String),
}

} // verus!
