use vstd::prelude::*;

use crate::error::{Error, UrlError};
use crate::mode::Mode;
use crate::tls::{AutoStream, TlsWrapper, Wrapped};

verus! {

/// The stream wrapper used where no TLS backend is in use: plain streams pass
/// through unchanged and TLS is refused.
#[derive(Clone, Copy, Debug)]
pub struct Wrapper;

impl<S, T> TlsWrapper<S, T> for Wrapper {
    open spec fn wraps(&self, stream: S, domain: &str, mode: Mode, r: Result<Wrapped<S, T>, Error>) -> bool {
        match mode {
            Mode::Plain => r == Ok::<Wrapped<S, T>, Error>(Wrapped::Ready(AutoStream::Plain(stream))),
            Mode::Tls => r == Err::<Wrapped<S, T>, Error>(Error::Url(UrlError::TlsFeatureNotEnabled)),
        }
    }

    /// Hands a plain stream back as it is; asks for TLS are a URL error.
    fn wrap_stream(&self, stream: S, domain: &str, mode: Mode) -> (r: Result<Wrapped<S, T>, Error>) {
        match mode {
            Mode::Plain => Ok(Wrapped::Ready(AutoStream::Plain(stream))),
            Mode::Tls => Err(Error::Url(UrlError::TlsFeatureNotEnabled)),
        }
    }
}

} // verus!
