use vstd::prelude::*;

use crate::error::{Error, UrlError};
use crate::mode::{scheme_mode, spec_default_port, target_port, uri_mode, Mode};
use crate::request::{IntoClientRequest, HandshakeRequest, RequestView};
use crate::uri::{Uri, UriView};

verus! {

/// What a client handshake starts from: the caller's stream, the normalised
/// request and the configuration, which is passed on untouched.
pub struct ClientStart<S, C> {
    pub stream: S,
    pub request: HandshakeRequest,
    pub config: Option<C>,
}

/// Prepares a client handshake over a caller-owned stream with a configuration:
/// the request is normalised and nothing is connected or wrapped.
pub fn client_with_config<S, C, Req: IntoClientRequest>(
    request: Req,
    stream: S,
    config: Option<C>,
) -> (r: Result<ClientStart<S, C>, Error>)
    ensures
        match r {
            Ok(start) => {
                &&& request.normalizes_to(Ok(start.request@))
                &&& start.stream == stream
                &&& start.config == config
            },
            Err(e) => request.normalizes_to(Err(e)),
        },
{
    match request.into_client_request() {
        Ok(q) => Ok(ClientStart { stream, request: q, config }),
        Err(e) => Err(e),
    }
}

/// Prepares a client handshake over a caller-owned stream with no configuration.
pub fn client<S, C, Req: IntoClientRequest>(request: Req, stream: S) -> (r: Result<
    ClientStart<S, C>,
    Error,
>)
    ensures
        match r {
            Ok(start) => {
                &&& request.normalizes_to(Ok(start.request@))
                &&& start.stream == stream
                &&& start.config is None
            },
            Err(e) => request.normalizes_to(Err(e)),
        },
{
    client_with_config(request, stream, None)
}

/// Where an attempt connects: host, port and mode.
pub struct Destination {
    pub host: String,
    pub port: u16,
    pub mode: Mode,
}

/// The destination of an attempt at `uri`, or the error that stops it: an
/// unsupported scheme first, then a missing host. The port is the URI's own,
/// else 80 for plain and 443 for TLS.
pub open spec fn spec_destination(target: Uri) -> Result<(Seq<char>, u16, Mode), Error> {
    let uri = target@;
    match scheme_mode(uri.scheme) {
        None => Err(Error::Url(UrlError::UnsupportedUrlScheme(target.scheme))),
        Some(mode) => match uri.host {
            None => Err(Error::Url(UrlError::NoHostName)),
            Some(h) => Ok(
                (
                    h,
                    match uri.port {
                        Some(p) => p,
                        None => spec_default_port(mode),
                    },
                    mode,
                ),
            ),
        },
    }
}

/// Works out where an attempt at `uri` connects.
pub fn destination(uri: &Uri) -> (r: Result<Destination, Error>)
    ensures
        match r {
            Ok(d) => spec_destination(*uri) == Ok::<(Seq<char>, u16, Mode), Error>(
                (d.host@, d.port, d.mode),
            ),
            Err(e) => spec_destination(*uri) == Err::<(Seq<char>, u16, Mode), Error>(e),
        },
{
    let mode = match uri_mode(uri) {
        Ok(m) => m,
        Err(e) => return Err(e),
    };
    let host = match uri.host_name() {
        Ok(h) => h.clone(),
        Err(e) => return Err(e),
    };
    let port = target_port(uri, mode);
    Ok(Destination { host, port, mode })
}

} // verus!
