use vstd::prelude::*;
use vstd::string::StringSliceAdditionalSpecFns;

use crate::error::{Error, TlsError};
use crate::mode::Mode;
use crate::tls::{AutoStream, TlsWrapper, Wrapped};

verus! {

/// Whether `webpki` accepts the bytes `b` as a syntactically valid DNS name.
pub uninterp spec fn dns_name_valid(b: Seq<u8>) -> bool;

#[verifier::external_type_specification]
#[verifier::external_body]
pub struct ExInvalidDnsNameError(webpki::InvalidDNSNameError);

/// Relies on `webpki::DNSNameRef::try_from_ascii_str`: it accepts exactly the
/// syntactically valid DNS names.
#[verifier::external_body]
fn webpki_check_name(domain: &str) -> (r: Result<(), webpki::InvalidDNSNameError>)
    ensures
        r is Ok <==> dns_name_valid(domain.spec_bytes()),
{
    match webpki::DNSNameRef::try_from_ascii_str(domain) {
        Ok(_) => Ok(()),
        Err(e) => Err(e),
    }
}

/// The backend that secures streams with a pure-Rust TLS session, trusting an
/// explicit list of root certificates.
#[derive(Clone, Copy, Debug)]
pub struct Wrapper;

impl<P, T> TlsWrapper<P, T> for Wrapper {
    open spec fn wraps(&self, stream: P, domain: &str, mode: Mode, r: Result<Wrapped<P, T>, Error>) -> bool {
        match mode {
            Mode::Plain => r == Ok::<Wrapped<P, T>, Error>(
                Wrapped::Ready(AutoStream::Plain(stream)),
            ),
            Mode::Tls => if dns_name_valid(domain.spec_bytes()) {
                r == Ok::<Wrapped<P, T>, Error>(Wrapped::NeedsTls(stream))
            } else {
                r == Err::<Wrapped<P, T>, Error>(Error::Tls(TlsError::InvalidDnsName))
            },
        }
    }

    /// A plain stream is ready as it is. For TLS, `domain` must be a valid DNS
    /// name; the session over the stream is then still to be set up.
    fn wrap_stream(&self, stream: P, domain: &str, mode: Mode) -> (r: Result<Wrapped<P, T>, Error>) {
        match mode {
            Mode::Plain => Ok(Wrapped::Ready(AutoStream::Plain(stream))),
            Mode::Tls => match webpki_check_name(domain) {
                Ok(()) => Ok(Wrapped::NeedsTls(stream)),
                Err(_) => Err(Error::Tls(TlsError::InvalidDnsName)),
            },
        }
    }
}

} // verus!
