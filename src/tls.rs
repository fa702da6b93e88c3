use vstd::prelude::*;

use crate::error::Error;
use crate::mode::Mode;

pub mod native;
pub mod rustls;

verus! {

/// A stream that is either the raw transport or a TLS session over it. The
/// variant is fixed when the stream is made.
#[derive(Debug)]
pub enum AutoStream<P, T> {
    Plain(P),
    Tls(T),
}

impl<P, T> AutoStream<P, T> {
    /// The mode of this stream.
    pub fn mode(&self) -> (r: Mode)
        ensures
            r == (match self {
                AutoStream::Plain(_) => Mode::Plain,
                AutoStream::Tls(_) => Mode::Tls,
            }),
    {
        match self {
            AutoStream::Plain(_) => Mode::Plain,
            AutoStream::Tls(_) => Mode::Tls,
        }
    }

    /// The raw stream, where this stream is plain.
    pub fn into_plain(self) -> (r: Option<P>)
        ensures
            match self {
                AutoStream::Plain(p) => r == Some(p),
                AutoStream::Tls(_) => r is None,
            },
    {
        match self {
            AutoStream::Plain(p) => Some(p),
            AutoStream::Tls(_) => None,
        }
    }
}

/// The outcome of the part of wrapping that needs no I/O: either the stream
/// is ready, or a TLS handshake over it is still to be made.
#[derive(Debug)]
pub enum Wrapped<P, T> {
    Ready(AutoStream<P, T>),
    NeedsTls(P),
}

/// The capability of wrapping a freshly connected stream as a mode asks. Each
/// backend implements it; a plain stream always passes through unchanged.
pub trait TlsWrapper<S, T>: Sized {
    /// Whether `r` is what this backend returns for these arguments.
    spec fn wraps(&self, stream: S, domain: &str, mode: Mode, r: Result<Wrapped<S, T>, Error>) -> bool;

    /// Wraps `stream`, verifying TLS against `domain`.
    fn wrap_stream(&self, stream: S, domain: &str, mode: Mode) -> (r: Result<Wrapped<S, T>, Error>)
        ensures
            self.wraps(stream, domain, mode, r),
            mode == Mode::Plain ==> r == Ok::<Wrapped<S, T>, Error>(
                Wrapped::Ready(AutoStream::Plain(stream)),
            ),
    ;
}

} // verus!
