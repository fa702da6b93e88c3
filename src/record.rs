use vstd::prelude::*;

use crate::error::Error;
use crate::request::{HandshakeRequest, RequestView};

verus! {

/// One try at an address: connect to the address at `index` and wrap the
/// stream for `domain`, or report that either step failed.
pub trait Dialer<S> {
    fn dial(&mut self, index: usize, domain: &String) -> Option<S>;
}

/// One attempt of the handshake: connect to the target of `request` and run
/// the upgrade over the stream.
pub trait Handshaker<W> {
    fn attempt(&mut self, request: HandshakeRequest) -> Result<W, Error>;
}

/// A call of [`Dialer::dial`]: what it was handed and what it returned.
pub ghost struct DialCall<S> {
    pub index: nat,
    pub domain: Seq<char>,
    pub result: Option<S>,
}

/// A call of [`Handshaker::attempt`]: what it was handed and what it returned.
pub ghost struct AttemptCall<W> {
    pub request: RequestView,
    pub result: Result<W, Error>,
}

/// A dialer whose every call is recorded. The dialer is reached only through
/// [`RecordingDialer::dial`], which extends the record by that call.
pub struct RecordingDialer<S, D> {
    inner: D,
    calls: Ghost<Seq<DialCall<S>>>,
}

impl<S, D: Dialer<S>> RecordingDialer<S, D> {
    /// The calls made so far, in order.
    pub closed spec fn calls(&self) -> Seq<DialCall<S>> {
        self.calls@
    }

    /// Starts recording the calls of `inner`.
    pub fn new(inner: D) -> (r: Self)
        ensures
            r.calls() == Seq::<DialCall<S>>::empty(),
    {
        RecordingDialer { inner, calls: Ghost(Seq::empty()) }
    }

    /// Calls the dialer and records the call.
    pub fn dial(&mut self, index: usize, domain: &String) -> (r: Option<S>)
        ensures
            final(self).calls() == old(self).calls().push(
                DialCall { index: index as nat, domain: domain@, result: r },
            ),
    {
        let r = self.inner.dial(index, domain);
        let ghost call = DialCall { index: index as nat, domain: domain@, result: r };
        self.calls = Ghost(self.calls@.push(call));
        r
    }

    /// The dialer, released from recording.
    pub fn into_inner(self) -> D {
        self.inner
    }
}

/// A handshaker whose every call is recorded. The handshaker is reached only
/// through [`RecordingHandshaker::attempt`], which extends the record by that call.
pub struct RecordingHandshaker<W, H> {
    inner: H,
    calls: Ghost<Seq<AttemptCall<W>>>,
}

impl<W, H: Handshaker<W>> RecordingHandshaker<W, H> {
    /// The calls made so far, in order.
    pub closed spec fn calls(&self) -> Seq<AttemptCall<W>> {
        self.calls@
    }

    /// Starts recording the calls of `inner`.
    pub fn new(inner: H) -> (r: Self)
        ensures
            r.calls() == Seq::<AttemptCall<W>>::empty(),
    {
        RecordingHandshaker { inner, calls: Ghost(Seq::empty()) }
    }

    /// Calls the handshaker and records the call.
    pub fn attempt(&mut self, request: HandshakeRequest) -> (r: Result<W, Error>)
        ensures
            final(self).calls() == old(self).calls().push(
                AttemptCall { request: request@, result: r },
            ),
    {
        let ghost seen = request@;
        let r = self.inner.attempt(request);
        let ghost call = AttemptCall { request: seen, result: r };
        self.calls = Ghost(self.calls@.push(call));
        r
    }

    /// The handshaker, released from recording.
    pub fn into_inner(self) -> H {
        self.inner
    }
}

} // verus!
