use vstd::prelude::*;

use crate::error::Error;
use crate::mode::Mode;
use crate::tls::{AutoStream, TlsWrapper, Wrapped};

verus! {

/// The backend that secures streams with the platform's TLS library and its
/// system trust roots.
#[derive(Clone, Copy, Debug)]
pub struct Wrapper;

impl<P, T> TlsWrapper<P, T> for Wrapper {
    open spec fn wraps(&self, stream: P, domain: &str, mode: Mode, r: Result<Wrapped<P, T>, Error>) -> bool {
        match mode {
            Mode::Plain => r == Ok::<Wrapped<P, T>, Error>(
                Wrapped::Ready(AutoStream::Plain(stream)),
            ),
            Mode::Tls => r == Ok::<Wrapped<P, T>, Error>(Wrapped::NeedsTls(stream)),
        }
    }

    /// A plain stream is ready as it is; a TLS one is handed on for the
    /// platform handshake against `domain`.
    fn wrap_stream(&self, stream: P, domain: &str, mode: Mode) -> (r: Result<Wrapped<P, T>, Error>) {
        match mode {
            Mode::Plain => Ok(Wrapped::Ready(AutoStream::Plain(stream))),
            Mode::Tls => Ok(Wrapped::NeedsTls(stream)),
        }
    }
}

} // verus!
