use vstd::prelude::*;

use crate::error::{Error, HttpFormatError};
use crate::message::{
    all_visible_ascii, find_header, first_named, headers_view, is_redirection, location_name,
    status_is_redirection, value_is_text, Header, Version,
};
use crate::request::{HandshakeRequest, IntoClientRequest, RequestView};
use crate::connector::calls_after;
use crate::record::{AttemptCall, Handshaker, RecordingHandshaker};
use crate::uri::{parse_uri_bytes, uri_result, Uri, UriView};

verus! {

/// The state of a redirect-following handshake: what to send (fixed for the
/// whole exchange), where to send it (changed only by redirects), and how many
/// attempts have been made.
pub struct Redirects {
    method: String,
    version: Version,
    headers: Vec<Header>,
    uri: Uri,
    attempt: u8,
    max_redirects: u8,
}

/// The mathematical model of [`Redirects`].
pub ghost struct RedirectsView {
    pub method: Seq<char>,
    pub version: Version,
    pub headers: Seq<(Seq<char>, Seq<u8>)>,
    pub uri: UriView,
    pub attempt: nat,
    pub max_redirects: nat,
}

impl View for Redirects {
    type V = RedirectsView;

    closed spec fn view(&self) -> RedirectsView {
        RedirectsView {
            method: self.method@,
            version: self.version,
            headers: headers_view(self.headers@),
            uri: self.uri@,
            attempt: self.attempt as nat,
            max_redirects: self.max_redirects as nat,
        }
    }
}

impl RedirectsView {
    /// At most `max_redirects + 1` attempts are ever made.
    pub open spec fn wf(self) -> bool {
        self.attempt <= self.max_redirects
    }

    /// The request of the current attempt.
    pub open spec fn current_request(self) -> RequestView {
        RequestView {
            method: self.method,
            uri: self.uri,
            version: self.version,
            headers: self.headers,
        }
    }

    /// The state in which the exchange of `request` starts.
    pub open spec fn initial(request: RequestView, max_redirects: nat) -> RedirectsView {
        RedirectsView {
            method: request.method,
            version: request.version,
            headers: request.headers,
            uri: request.uri,
            attempt: 0,
            max_redirects,
        }
    }
}

/// What the driver decides after a failed attempt: try again, or give up.
pub enum Next {
    /// Attempt again, against the target of the redirect.
    Retry(Redirects),
    /// Report this error to the caller.
    Fail(Error),
}

/// The model of a decision after a failed attempt.
pub ghost enum Decision {
    Retry(UriView),
    Fail(Error),
}

/// The decision after attempt number `attempt` (from 0) failed with `err`,
/// where `max_redirects` redirects are allowed.
pub open spec fn decide(attempt: nat, max_redirects: nat, err: Error) -> Decision {
    match err {
        Error::Http(res) => if is_redirection(res.status) && attempt < max_redirects {
            match first_named(headers_view(res.headers@), location_name()) {
                Some(v) => if !all_visible_ascii(v) {
                    Decision::Fail(Error::HttpFormat(HttpFormatError::InvalidHeaderValue))
                } else {
                    match uri_result(v) {
                        Ok(u) => Decision::Retry(u),
                        Err(e) => Decision::Fail(e),
                    }
                },
                None => Decision::Fail(err),
            }
        } else {
            Decision::Fail(err)
        },
        _ => Decision::Fail(err),
    }
}

impl Redirects {
    /// Starts the exchange of `request`, allowing `max_redirects` redirects.
    pub fn new(request: HandshakeRequest, max_redirects: u8) -> (r: Redirects)
        ensures
            r@ == RedirectsView::initial(request@, max_redirects as nat),
            r@.wf(),
    {
        Redirects {
            method: request.method,
            version: request.version,
            headers: request.headers,
            uri: request.uri,
            attempt: 0,
            max_redirects,
        }
    }

    /// Normalises `request` once and starts its exchange.
    pub fn start<Req: IntoClientRequest>(request: Req, max_redirects: u8) -> (r: Result<
        Redirects,
        Error,
    >)
        ensures
            match r {
                Ok(d) => exists|q: RequestView|
                    {
                        &&& request.normalizes_to(Ok(q))
                        &&& d@ == RedirectsView::initial(q, max_redirects as nat)
                    },
                Err(e) => request.normalizes_to(Err(e)),
            },
            r is Ok ==> r->Ok_0@.wf(),
    {
        let ghost req = request;
        match request.into_client_request() {
            Ok(q) => {
                let ghost qv = q@;
                let d = Redirects::new(q, max_redirects);
                assert(req.normalizes_to(Ok(qv)));
                Ok(d)
            },
            Err(e) => Err(e),
        }
    }

    /// The number of attempts made before the current one.
    pub fn attempt(&self) -> (r: u8)
        ensures
            r as nat == self@.attempt,
    {
        self.attempt
    }

    /// The redirect budget.
    pub fn max_redirects(&self) -> (r: u8)
        ensures
            r as nat == self@.max_redirects,
    {
        self.max_redirects
    }

    /// The target of the current attempt.
    pub fn uri(&self) -> (r: &Uri)
        ensures
            r@ == self@.uri,
    {
        &self.uri
    }

    /// A fresh request for the current attempt: the method, version and
    /// header fields the exchange started with, sent to the current target.
    pub fn request(&self) -> (r: HandshakeRequest)
        ensures
            r@ == self@.current_request(),
    {
        HandshakeRequest::from_parts(&self.method, self.uri.duplicate(), self.version, &self.headers)
    }

    /// Decides what follows a failed attempt. A redirection-class HTTP error,
    /// while attempts remain, moves to the target of its `location` field; a
    /// redirect without that field, and every other error, is reported as it is.
    pub fn on_failure(self, err: Error) -> (r: Next)
        requires
            self@.wf(),
        ensures
            match (r, decide(self@.attempt, self@.max_redirects, err)) {
                (Next::Retry(d), Decision::Retry(u)) => {
                    &&& d@ == RedirectsView { uri: u, attempt: self@.attempt + 1, ..self@ }
                    &&& d@.wf()
                },
                (Next::Fail(e), Decision::Fail(f)) => e == f,
                _ => false,
            },
    {
        match err {
            Error::Http(res) => {
                if status_is_redirection(res.status) && self.attempt < self.max_redirects {
                    let name = String::from_str("location");
                    proof {
                        reveal_strlit("location");
                        assert(name@ =~= location_name());
                    }
                    match find_header(&res.headers, &name) {
                        Some(v) => {
                            if !value_is_text(v.as_slice()) {
                                Next::Fail(Error::HttpFormat(HttpFormatError::InvalidHeaderValue))
                            } else {
                                match parse_uri_bytes(v.as_slice()) {
                                    Ok(u) => Next::Retry(
                                        Redirects {
                                            method: self.method,
                                            version: self.version,
                                            headers: self.headers,
                                            uri: u,
                                            attempt: self.attempt + 1,
                                            max_redirects: self.max_redirects,
                                        },
                                    ),
                                    Err(e) => Next::Fail(e),
                                }
                            }
                        },
                        None => Next::Fail(Error::Http(res)),
                    }
                } else {
                    Next::Fail(Error::Http(res))
                }
            },
            other => Next::Fail(other),
        }
    }
}

/// What one attempt's handshake reported: success, or a failure with its error.
pub ghost enum Attempt {
    Succeeded,
    Failed(Error),
}

/// How a run of the driver over a list of attempt outcomes ends.
pub ghost enum RunEnd {
    /// Success after this many attempts.
    Success(nat),
    /// The error reported after this many attempts.
    Failure(nat, Error),
    /// The outcomes ran out before the driver stopped.
    Unfinished,
}

/// The end of a run that starts at attempt `i`, where attempt `j` reports
/// `outcomes[j]` and `max_redirects` redirects are allowed.
pub open spec fn run_from(max_redirects: nat, outcomes: Seq<Attempt>, i: nat) -> RunEnd
    decreases outcomes.len() - i,
{
    if i >= outcomes.len() {
        RunEnd::Unfinished
    } else {
        match outcomes[i as int] {
            Attempt::Succeeded => RunEnd::Success(i + 1),
            Attempt::Failed(e) => match decide(i, max_redirects, e) {
                Decision::Retry(_) => run_from(max_redirects, outcomes, i + 1),
                Decision::Fail(f) => RunEnd::Failure(i + 1, f),
            },
        }
    }
}

/// A redirection-class HTTP error whose `location` field reads as a valid URI.
pub open spec fn is_followable_redirect(e: Error) -> bool {
    match e {
        Error::Http(res) => {
            &&& is_redirection(res.status)
            &&& match first_named(headers_view(res.headers@), location_name()) {
                Some(v) => all_visible_ascii(v) && uri_result(v) is Ok,
                None => false,
            }
        },
        _ => false,
    }
}

/// A redirection-class HTTP error without a `location` field.
pub open spec fn is_redirect_without_location(e: Error) -> bool {
    match e {
        Error::Http(res) => is_redirection(res.status) && first_named(
            headers_view(res.headers@),
            location_name(),
        ) is None,
        _ => false,
    }
}

/// The first `n` outcomes are followable redirects.
pub open spec fn redirects_first(outcomes: Seq<Attempt>, n: nat) -> bool {
    &&& n <= outcomes.len()
    &&& forall|j: int|
        0 <= j < n ==> match #[trigger] outcomes[j] {
            Attempt::Failed(e) => is_followable_redirect(e),
            Attempt::Succeeded => false,
        }
}

proof fn lemma_follow_to_success(max_redirects: nat, outcomes: Seq<Attempt>, redirects: nat, i: nat)
    requires
        redirects_first(outcomes, redirects),
        redirects < outcomes.len(),
        outcomes[redirects as int] == Attempt::Succeeded,
        redirects <= max_redirects,
        i <= redirects,
    ensures
        run_from(max_redirects, outcomes, i) == RunEnd::Success(redirects + 1),
    decreases redirects - i,
{
    if i < redirects {
        let o = outcomes[i as int];
        assert(match o {
            Attempt::Failed(e) => is_followable_redirect(e),
            Attempt::Succeeded => false,
        });
        lemma_follow_to_success(max_redirects, outcomes, redirects, i + 1);
    }
}

proof fn lemma_follow_to_bound(max_redirects: nat, outcomes: Seq<Attempt>, redirects: nat, i: nat)
    requires
        redirects_first(outcomes, redirects),
        max_redirects < redirects,
        i <= max_redirects,
    ensures
        match outcomes[max_redirects as int] {
            Attempt::Failed(e) => run_from(max_redirects, outcomes, i) == RunEnd::Failure(
                max_redirects + 1,
                e,
            ),
            Attempt::Succeeded => false,
        },
    decreases max_redirects - i,
{
    let o = outcomes[i as int];
    assert(match o {
        Attempt::Failed(e) => is_followable_redirect(e),
        Attempt::Succeeded => false,
    });
    assert(match outcomes[max_redirects as int] {
        Attempt::Failed(e) => is_followable_redirect(e),
        Attempt::Succeeded => false,
    });
    if i < max_redirects {
        lemma_follow_to_bound(max_redirects, outcomes, redirects, i + 1);
    }
}

/// Where the first `redirects` attempts end in followable redirects and the next
/// one succeeds, a budget of at least `redirects` makes exactly `redirects + 1`
/// attempts and ends in that success.
pub proof fn law_redirects_within_budget(max_redirects: nat, outcomes: Seq<Attempt>, redirects: nat)
    requires
        redirects_first(outcomes, redirects),
        redirects < outcomes.len(),
        outcomes[redirects as int] == Attempt::Succeeded,
        redirects <= max_redirects,
    ensures
        run_from(max_redirects, outcomes, 0) == RunEnd::Success(redirects + 1),
{
    lemma_follow_to_success(max_redirects, outcomes, redirects, 0);
}

/// Where more redirects come than the budget allows, the driver stops after
/// `max_redirects + 1` attempts and reports the HTTP error of the last one.
pub proof fn law_redirects_beyond_budget(max_redirects: nat, outcomes: Seq<Attempt>, redirects: nat)
    requires
        redirects_first(outcomes, redirects),
        max_redirects < redirects,
    ensures
        match outcomes[max_redirects as int] {
            Attempt::Failed(e) => run_from(max_redirects, outcomes, 0) == RunEnd::Failure(
                max_redirects + 1,
                e,
            ),
            Attempt::Succeeded => false,
        },
{
    lemma_follow_to_bound(max_redirects, outcomes, redirects, 0);
}

/// A redirect without a `location` field ends the run at once with that very
/// error, whatever budget remains: no further attempt is made.
pub proof fn law_redirect_without_location_stops(
    max_redirects: nat,
    outcomes: Seq<Attempt>,
    i: nat,
    e: Error,
)
    requires
        i < outcomes.len(),
        outcomes[i as int] == Attempt::Failed(e),
        is_redirect_without_location(e),
    ensures
        run_from(max_redirects, outcomes, i) == RunEnd::Failure(i + 1, e),
        decide(i, max_redirects, e) == Decision::Fail(e),
{
}

/// What a recorded call reported, as an attempt outcome.
pub open spec fn outcome_of<W>(c: AttemptCall<W>) -> Attempt {
    match c.result {
        Ok(_) => Attempt::Succeeded,
        Err(e) => Attempt::Failed(e),
    }
}

/// The outcomes of a list of recorded calls.
pub open spec fn outcomes<W>(calls: Seq<AttemptCall<W>>) -> Seq<Attempt> {
    calls.map_values(|c: AttemptCall<W>| outcome_of(c))
}

/// The target of call `j`: `first` for the first call, else the target of the
/// redirect that the call before it reported.
pub open spec fn call_target<W>(
    first: UriView,
    max_redirects: nat,
    calls: Seq<AttemptCall<W>>,
    j: int,
) -> UriView {
    if j <= 0 {
        first
    } else {
        match calls[j - 1].result {
            Err(e) => match decide((j - 1) as nat, max_redirects, e) {
                Decision::Retry(u) => u,
                Decision::Fail(_) => first,
            },
            Ok(_) => first,
        }
    }
}

/// Every call `j` was handed `q`, sent to `call_target(..., j)`.
#[verifier::opaque]
pub open spec fn requests_follow<W>(q: RequestView, max_redirects: nat, made: Seq<AttemptCall<W>>) -> bool {
    forall|j: int|
        0 <= j < made.len() ==> (#[trigger] made[j]).request == (RequestView {
            uri: call_target(q.uri, max_redirects, made, j),
            ..q
        })
}

/// Every run whose first outcomes are those of `made` goes on past them.
#[verifier::opaque]
pub open spec fn runs_past<W>(max_redirects: nat, made: Seq<AttemptCall<W>>) -> bool {
    forall|ext: Seq<Attempt>|
        ext.len() > made.len() && #[trigger] ext.subrange(0, made.len() as int) == outcomes(made)
            ==> run_from(max_redirects, ext, 0) == run_from(max_redirects, ext, made.len())
}

proof fn lemma_requests_step<W>(q: RequestView, max_redirects: nat, made0: Seq<AttemptCall<W>>, c: AttemptCall<W>)
    requires
        requests_follow(q, max_redirects, made0),
        c.request == (RequestView { uri: call_target(q.uri, max_redirects, made0, made0.len() as int), ..q }),
    ensures
        requests_follow(q, max_redirects, made0.push(c)),
{
    reveal(requests_follow);
    let made = made0.push(c);
    assert forall|j: int| 0 <= j < made.len() implies (#[trigger] made[j]).request == (RequestView {
        uri: call_target(q.uri, max_redirects, made, j),
        ..q
    }) by {
        if j > 0 {
            assert(made[j - 1] == made0[j - 1]);
        }
        if j < made0.len() {
            assert(made[j] == made0[j]);
        }
    }
}

proof fn lemma_outcomes_push<W>(made0: Seq<AttemptCall<W>>, c: AttemptCall<W>)
    ensures
        outcomes(made0.push(c)).subrange(0, made0.len() as int) == outcomes(made0),
        outcomes(made0.push(c)).len() == made0.len() + 1,
        outcomes(made0.push(c))[made0.len() as int] == outcome_of(c),
{
    assert(outcomes(made0.push(c)).subrange(0, made0.len() as int) =~= outcomes(made0));
}

proof fn lemma_runs_past_step<W>(max_redirects: nat, made0: Seq<AttemptCall<W>>, c: AttemptCall<W>, e: Error)
    requires
        runs_past(max_redirects, made0),
        c.result == Err::<W, Error>(e),
        decide(made0.len(), max_redirects, e) is Retry,
    ensures
        runs_past(max_redirects, made0.push(c)),
{
    reveal(runs_past);
    let made = made0.push(c);
    lemma_outcomes_push(made0, c);
    assert forall|ext: Seq<Attempt>|
        ext.len() > made.len() && #[trigger] ext.subrange(0, made.len() as int) == outcomes(made)
            implies run_from(max_redirects, ext, 0) == run_from(max_redirects, ext, made.len()) by {
        assert(ext.subrange(0, made0.len() as int) =~= outcomes(made0));
        assert(ext[made0.len() as int] == outcomes(made)[made0.len() as int]);
    }
}

proof fn lemma_runs_end<W>(max_redirects: nat, made0: Seq<AttemptCall<W>>, c: AttemptCall<W>)
    requires
        runs_past(max_redirects, made0),
    ensures
        run_from(max_redirects, outcomes(made0.push(c)), 0) == run_from(
            max_redirects,
            outcomes(made0.push(c)),
            made0.len(),
        ),
        run_from(max_redirects, outcomes(made0.push(c)), made0.len()) == match c.result {
            Ok(_) => RunEnd::Success(made0.len() + 1),
            Err(e) => match decide(made0.len(), max_redirects, e) {
                Decision::Retry(_) => run_from(max_redirects, outcomes(made0.push(c)), made0.len() + 1),
                Decision::Fail(f) => RunEnd::Failure(made0.len() + 1, f),
            },
        },
{
    reveal(runs_past);
    lemma_outcomes_push(made0, c);
    let ext = outcomes(made0.push(c));
    assert(ext.subrange(0, made0.len() as int) == outcomes(made0));
}

/// Runs the handshake of `request` through `handshaker`, following up to
/// `max_redirects` redirects. Where `request` does not normalise, its error is
/// returned before any call. Otherwise call `j` is handed the normalised
/// request, sent to the target of the redirect before it; at most
/// `max_redirects + 1` calls are made, and the result is how the driver's run
/// over what the calls reported ends: the success value of the last call, or
/// the error the driver reports.
pub fn follow_redirects<W, H: Handshaker<W>, Req: IntoClientRequest>(
    request: Req,
    max_redirects: u8,
    handshaker: &mut RecordingHandshaker<W, H>,
) -> (r: Result<W, Error>)
    ensures
        final(handshaker).calls().len() >= old(handshaker).calls().len(),
        final(handshaker).calls().subrange(0, old(handshaker).calls().len() as int) == old(
            handshaker,
        ).calls(),
        ({
            let made = calls_after(final(handshaker).calls(), old(handshaker).calls().len());
            &&& made.len() <= max_redirects as nat + 1
            &&& made.len() == 0 ==> r is Err && request.normalizes_to(Err(r->Err_0))
            &&& made.len() > 0 ==> exists|q: RequestView|
                {
                    &&& request.normalizes_to(Ok(q))
                    &&& requests_follow(q, max_redirects as nat, made)
                    &&& match r {
                        Ok(_) => {
                            &&& run_from(max_redirects as nat, outcomes(made), 0)
                                == RunEnd::Success(made.len())
                            &&& made.last().result == r
                        },
                        Err(e) => run_from(max_redirects as nat, outcomes(made), 0)
                            == RunEnd::Failure(made.len(), e),
                    }
                }
        }),
{
    let ghost before = handshaker.calls();
    let ghost req = request;
    let mut d = match Redirects::start(request, max_redirects) {
        Ok(d) => d,
        Err(e) => {
            assert(calls_after(handshaker.calls(), before.len()) =~= Seq::<AttemptCall<W>>::empty());
            assert(handshaker.calls().subrange(0, before.len() as int) =~= before);
            return Err(e);
        },
    };
    let ghost q = choose|q: RequestView|
        req.normalizes_to(Ok(q)) && d@ == RedirectsView::initial(q, max_redirects as nat);
    proof {
        let made = calls_after(handshaker.calls(), before.len());
        assert(made =~= Seq::<AttemptCall<W>>::empty());
        reveal(requests_follow);
        reveal(runs_past);
    }
    loop
        invariant
            before == old(handshaker).calls(),
            req == request,
            req.normalizes_to(Ok(q)),
            handshaker.calls().len() >= before.len(),
            handshaker.calls().subrange(0, before.len() as int) == before,
            d@.wf(),
            d@.max_redirects == max_redirects as nat,
            d@.method == q.method,
            d@.version == q.version,
            d@.headers == q.headers,
            d@.attempt == calls_after(handshaker.calls(), before.len()).len(),
            d@.uri == call_target(
                q.uri,
                max_redirects as nat,
                calls_after(handshaker.calls(), before.len()),
                calls_after(handshaker.calls(), before.len()).len() as int,
            ),
            requests_follow(q, max_redirects as nat, calls_after(handshaker.calls(), before.len())),
            runs_past(max_redirects as nat, calls_after(handshaker.calls(), before.len())),
        decreases max_redirects as nat - d@.attempt,
    {
        let ghost prev = handshaker.calls();
        let ghost made0 = calls_after(prev, before.len());
        let qr = d.request();
        let res = handshaker.attempt(qr);
        let ghost c = handshaker.calls().last();
        let ghost made = calls_after(handshaker.calls(), before.len());
        proof {
            assert(made =~= made0.push(c));
            assert(handshaker.calls().subrange(0, before.len() as int) =~= prev.subrange(
                0,
                before.len() as int,
            ));
            lemma_requests_step(q, max_redirects as nat, made0, c);
            lemma_runs_end(max_redirects as nat, made0, c);
        }
        match res {
            Ok(w) => {
                return Ok(w);
            },
            Err(e) => {
                match d.on_failure(e) {
                    Next::Retry(next) => {
                        proof {
                            lemma_runs_past_step(max_redirects as nat, made0, c, e);
                        }
                        d = next;
                    },
                    Next::Fail(f) => {
                        return Err(f);
                    },
                }
            },
        }
    }
}

/// The number of attempts that a run ended after, if it ended.
pub open spec fn attempts_made(end: RunEnd) -> Option<nat> {
    match end {
        RunEnd::Success(n) => Some(n),
        RunEnd::Failure(n, _) => Some(n),
        RunEnd::Unfinished => None,
    }
}

proof fn lemma_attempts_bounded(max_redirects: nat, outcomes: Seq<Attempt>, i: nat)
    requires
        i <= max_redirects,
    ensures
        match attempts_made(run_from(max_redirects, outcomes, i)) {
            Some(n) => i < n <= max_redirects + 1,
            None => true,
        },
    decreases outcomes.len() - i,
{
    if i < outcomes.len() {
        match outcomes[i as int] {
            Attempt::Succeeded => {},
            Attempt::Failed(e) => {
                if decide(i, max_redirects, e) is Retry {
                    lemma_attempts_bounded(max_redirects, outcomes, i + 1);
                }
            },
        }
    }
}

/// Whatever the attempts report, a run makes at least one and at most
/// `max_redirects + 1` attempts before it ends.
pub proof fn law_attempts_bounded(max_redirects: nat, outcomes: Seq<Attempt>)
    ensures
        match attempts_made(run_from(max_redirects, outcomes, 0)) {
            Some(n) => 1 <= n <= max_redirects + 1,
            None => true,
        },
{
    lemma_attempts_bounded(max_redirects, outcomes, 0);
}

} // verus!
