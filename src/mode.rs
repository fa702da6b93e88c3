use vstd::prelude::*;

use crate::error::{Error, UrlError};
use crate::uri::Uri;

verus! {

/// Whether a connection is plain TCP or secured with TLS.
#[derive(Clone, Copy, Debug, PartialEq, Eq, Structural)]
pub enum Mode {
    Plain,
    Tls,
}

/// The mode that a scheme selects: `ws` is plain, `wss` is TLS, nothing else is supported.
pub open spec fn scheme_mode(scheme: Option<Seq<char>>) -> Option<Mode> {
    match scheme {
        Some(s) => if s == seq!['w', 's'] {
            Some(Mode::Plain)
        } else if s == seq!['w', 's', 's'] {
            Some(Mode::Tls)
        } else {
            None
        },
        None => None,
    }
}

/// The port used when a URI gives none: 80 for plain, 443 for TLS.
pub open spec fn spec_default_port(mode: Mode) -> u16 {
    match mode {
        Mode::Plain => 80,
        Mode::Tls => 443,
    }
}

/// Derives the mode of a URI from its scheme.
pub fn uri_mode(uri: &Uri) -> (r: Result<Mode, Error>)
    ensures
        match scheme_mode(uri@.scheme) {
            Some(m) => r == Ok::<Mode, Error>(m),
            None => r == Err::<Mode, Error>(
                Error::Url(UrlError::UnsupportedUrlScheme(uri.scheme)),
            ),
        },
{
    let ws = String::from_str("ws");
    let wss = String::from_str("wss");
    proof {
        reveal_strlit("ws");
        reveal_strlit("wss");
        assert(ws@ =~= seq!['w', 's']);
        assert(wss@ =~= seq!['w', 's', 's']);
    }
    match &uri.scheme {
        Some(s) => {
            if *s == ws {
                Ok(Mode::Plain)
            } else if *s == wss {
                Ok(Mode::Tls)
            } else {
                Err(Error::Url(UrlError::UnsupportedUrlScheme(Some(s.clone()))))
            }
        },
        None => Err(Error::Url(UrlError::UnsupportedUrlScheme(None))),
    }
}

/// The port used when a URI gives none.
pub fn default_port(mode: Mode) -> (r: u16)
    ensures
        r == spec_default_port(mode),
{
    match mode {
        Mode::Plain => 80,
        Mode::Tls => 443,
    }
}

/// The port to connect to: the URI's own, else the default of the mode.
pub fn target_port(uri: &Uri, mode: Mode) -> (r: u16)
    ensures
        r == match uri@.port {
            Some(p) => p,
            None => spec_default_port(mode),
        },
{
    match uri.port {
        Some(p) => p,
        None => default_port(mode),
    }
}

} // verus!
