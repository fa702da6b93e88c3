use vstd::prelude::*;

use crate::error::{Error, UrlError};
use crate::record::{DialCall, Dialer, RecordingDialer};
use crate::uri::Uri;

verus! {

/// The decision taken after the address at `index` was tried.
pub ghost enum RaceStep {
    /// Try the address at this index next.
    Try(nat),
    /// Use the stream obtained from the address at this index.
    Use(nat),
    /// No address is left.
    GiveUp,
}

/// After the address at `index` of `count` was tried, with `succeeded` telling
/// whether it both connected and was wrapped: use it, else move on, else give up.
pub open spec fn race_decision(count: nat, index: nat, succeeded: bool) -> RaceStep {
    if succeeded {
        RaceStep::Use(index)
    } else if index + 1 < count {
        RaceStep::Try(index + 1)
    } else {
        RaceStep::GiveUp
    }
}

/// How a race over a list of addresses ends.
pub ghost enum RaceEnd {
    /// The stream of address `index` is used, after `tried` addresses were tried.
    Used { index: nat, tried: nat },
    /// Every address failed; `tried` addresses were tried.
    Exhausted { tried: nat },
}

/// The end of a race that reaches address `i`, where `outcomes[j]` tells whether
/// address `j` both connects and is wrapped.
pub open spec fn race_from(outcomes: Seq<bool>, i: nat) -> RaceEnd
    decreases outcomes.len() - i,
{
    if i >= outcomes.len() {
        RaceEnd::Exhausted { tried: i }
    } else {
        match race_decision(outcomes.len(), i, outcomes[i as int]) {
            RaceStep::Use(j) => RaceEnd::Used { index: j, tried: i + 1 },
            RaceStep::Try(j) => race_from(outcomes, j),
            RaceStep::GiveUp => RaceEnd::Exhausted { tried: i + 1 },
        }
    }
}

/// What the caller of a race does next.
#[derive(Debug)]
pub enum RaceAction {
    /// Connect to the address at this index and wrap the stream.
    Try(usize),
    /// Keep the stream obtained from the address at this index.
    Use(usize),
    /// Fail with this error: no address could be used.
    GiveUp(Error),
}

/// A race over resolved addresses, tried in order until one yields a wrapped stream.
pub struct AddressRace {
    count: usize,
    next: usize,
    target: String,
    domain: String,
}

/// The model of an [`AddressRace`].
pub ghost struct AddressRaceView {
    pub count: nat,
    pub next: nat,
    pub target: Seq<char>,
    pub domain: Seq<char>,
}

impl View for AddressRace {
    type V = AddressRaceView;

    closed spec fn view(&self) -> AddressRaceView {
        AddressRaceView {
            count: self.count as nat,
            next: self.next as nat,
            target: self.target@,
            domain: self.domain@,
        }
    }
}

/// The action that a modelled step yields, where giving up names `target`.
pub open spec fn action_matches(a: RaceAction, s: RaceStep, target: Seq<char>) -> bool {
    match (a, s) {
        (RaceAction::Try(i), RaceStep::Try(j)) => i as nat == j,
        (RaceAction::Use(i), RaceStep::Use(j)) => i as nat == j,
        (RaceAction::GiveUp(e), RaceStep::GiveUp) => match e {
            Error::Url(UrlError::UnableToConnect(t)) => t@ == target,
            _ => false,
        },
        _ => false,
    }
}

impl AddressRace {
    /// A race over `count` addresses resolved for `uri`. TLS names are checked
    /// against the host of `uri`, whichever address is used; a URI without a
    /// host is a URL error.
    pub fn new(count: usize, uri: &Uri) -> (r: Result<AddressRace, Error>)
        ensures
            match r {
                Ok(race) => uri@.host == Some(race@.domain) && race@ == (AddressRaceView {
                    count: count as nat,
                    next: 0,
                    target: uri@.text,
                    domain: race@.domain,
                }),
                Err(e) => uri@.host is None && e == Error::Url(UrlError::NoHostName),
            },
    {
        match uri.host_name() {
            Ok(h) => Ok(AddressRace { count, next: 0, target: uri.text.clone(), domain: h.clone() }),
            Err(e) => Err(e),
        }
    }

    /// The name that TLS verifies: the host of the target URI, whichever address is used.
    pub fn domain(&self) -> (r: &String)
        ensures
            r@ == self@.domain,
    {
        &self.domain
    }

    /// The first action: try the first address, or give up where there is none.
    pub fn start(&self) -> (r: RaceAction)
        requires
            self@.next == 0,
        ensures
            action_matches(
                r,
                if self@.count == 0 {
                    RaceStep::GiveUp
                } else {
                    RaceStep::Try(0)
                },
                self@.target,
            ),
    {
        if self.count == 0 {
            RaceAction::GiveUp(Error::Url(UrlError::UnableToConnect(self.target.clone())))
        } else {
            RaceAction::Try(0)
        }
    }

    /// The action after the current address was tried; `succeeded` tells whether
    /// it both connected and was wrapped. A failure is swallowed and the next
    /// address is tried; once one succeeds no later address is tried.
    pub fn advance(&mut self, succeeded: bool) -> (r: RaceAction)
        requires
            old(self)@.next < old(self)@.count,
        ensures
            action_matches(
                r,
                race_decision(old(self)@.count, old(self)@.next, succeeded),
                old(self)@.target,
            ),
            final(self)@ == (AddressRaceView {
                next: match r {
                    RaceAction::Try(i) => i as nat,
                    _ => old(self)@.next,
                },
                ..old(self)@
            }),
    {
        if succeeded {
            RaceAction::Use(self.next)
        } else if self.next + 1 < self.count {
            self.next = self.next + 1;
            RaceAction::Try(self.next)
        } else {
            RaceAction::GiveUp(Error::Url(UrlError::UnableToConnect(self.target.clone())))
        }
    }
}

/// The new calls of a recorder: those after the first `before` ones.
pub open spec fn calls_after<T>(calls: Seq<T>, before: nat) -> Seq<T> {
    calls.subrange(before as int, calls.len() as int)
}

/// Tries `count` resolved addresses of `uri` in order through `dialer`, and
/// keeps the first stream obtained. Call `j` is handed index `j` and the host of
/// `uri`; every call but the last failed; no call follows a success. A URI
/// without a host is an error before any call, and where every address fails
/// the error names the target.
pub fn connect_to_some<S, D: Dialer<S>>(
    dialer: &mut RecordingDialer<S, D>,
    count: usize,
    uri: &Uri,
) -> (r: Result<(usize, S), Error>)
    ensures
        final(dialer).calls().len() >= old(dialer).calls().len(),
        final(dialer).calls().subrange(0, old(dialer).calls().len() as int) == old(dialer).calls(),
        ({
            let made = calls_after(final(dialer).calls(), old(dialer).calls().len());
            match uri@.host {
                None => made.len() == 0 && r == Err::<(usize, S), Error>(
                    Error::Url(UrlError::NoHostName),
                ),
                Some(h) => {
                    &&& made.len() <= count
                    &&& forall|j: int|
                        0 <= j < made.len() ==> (#[trigger] made[j]).index == j && made[j].domain
                            == h
                    &&& forall|j: int| 0 <= j < made.len() - 1 ==> (#[trigger] made[j]).result is None
                    &&& match r {
                        Ok((k, s)) => {
                            &&& k + 1 == made.len()
                            &&& made[k as int].result == Some(s)
                        },
                        Err(e) => {
                            &&& made.len() == count
                            &&& forall|j: int| 0 <= j < made.len() ==> (#[trigger] made[j]).result is None
                            &&& match e {
                                Error::Url(UrlError::UnableToConnect(t)) => t@ == uri@.text,
                                _ => false,
                            }
                        },
                    }
                },
            }
        }),
{
    let ghost before = dialer.calls();
    let mut race = match AddressRace::new(count, uri) {
        Ok(race) => race,
        Err(e) => {
            assert(calls_after(dialer.calls(), before.len()) =~= Seq::<DialCall<S>>::empty());
            assert(dialer.calls().subrange(0, before.len() as int) =~= before);
            return Err(e);
        },
    };
    let mut action = race.start();
    loop
        invariant
            race@.count == count,
            race@.target == uri@.text,
            uri@.host == Some(race@.domain),
            before == old(dialer).calls(),
            dialer.calls().len() >= before.len(),
            dialer.calls().subrange(0, before.len() as int) == before,
            ({
                let made = calls_after(dialer.calls(), before.len());
                &&& made.len() <= count
                &&& forall|j: int|
                    0 <= j < made.len() ==> (#[trigger] made[j]).index == j && made[j].domain
                        == race@.domain
                &&& forall|j: int| 0 <= j < made.len() ==> (#[trigger] made[j]).result is None
                &&& match action {
                    RaceAction::Try(i) => i == made.len() && i < count && race@.next == i,
                    RaceAction::GiveUp(e) => made.len() == count && match e {
                        Error::Url(UrlError::UnableToConnect(t)) => t@ == uri@.text,
                        _ => false,
                    },
                    RaceAction::Use(_) => false,
                }
            }),
        decreases count - (dialer.calls().len() - before.len()),
    {
        let ghost prev = dialer.calls();
        match action {
            RaceAction::Try(i) => {
                let got = dialer.dial(i, race.domain());
                proof {
                    let made = calls_after(dialer.calls(), before.len());
                    assert(made =~= calls_after(prev, before.len()).push(dialer.calls().last()));
                    assert(dialer.calls().subrange(0, before.len() as int) =~= prev.subrange(
                        0,
                        before.len() as int,
                    ));
                }
                let next = race.advance(got.is_some());
                match got {
                    Some(stream) => {
                        return Ok((i, stream));
                    },
                    None => {
                        action = next;
                    },
                }
            },
            RaceAction::GiveUp(e) => {
                return Err(e);
            },
            RaceAction::Use(_) => {
                proof {
                    assert(false);
                }
                return Err(Error::Url(UrlError::NoHostName));
            },
        }
    }
}

proof fn lemma_race_reaches(outcomes: Seq<bool>, k: nat, i: nat)
    requires
        k < outcomes.len(),
        outcomes[k as int],
        forall|j: int| 0 <= j < k ==> !outcomes[j],
        i <= k,
    ensures
        race_from(outcomes, i) == (RaceEnd::Used { index: k, tried: k + 1 }),
    decreases k - i,
{
    if i < k {
        lemma_race_reaches(outcomes, k, i + 1);
    }
}

proof fn lemma_race_exhausts(outcomes: Seq<bool>, i: nat)
    requires
        forall|j: int| 0 <= j < outcomes.len() ==> !outcomes[j],
        i < outcomes.len(),
    ensures
        race_from(outcomes, i) == (RaceEnd::Exhausted { tried: outcomes.len() }),
    decreases outcomes.len() - i,
{
    if i + 1 < outcomes.len() {
        lemma_race_exhausts(outcomes, i + 1);
    }
}

/// Where address `k` is the first that both connects and is wrapped, the race
/// uses the stream of address `k` and tries no address after it.
pub proof fn law_race_stops_at_first_success(outcomes: Seq<bool>, k: nat)
    requires
        k < outcomes.len(),
        outcomes[k as int],
        forall|j: int| 0 <= j < k ==> !outcomes[j],
    ensures
        race_from(outcomes, 0) == (RaceEnd::Used { index: k, tried: k + 1 }),
{
    lemma_race_reaches(outcomes, k, 0);
}

/// Where no address both connects and is wrapped, every address is tried once
/// and the race gives up.
pub proof fn law_race_exhausts_all(outcomes: Seq<bool>)
    requires
        outcomes.len() > 0,
        forall|j: int| 0 <= j < outcomes.len() ==> !outcomes[j],
    ensures
        race_from(outcomes, 0) == (RaceEnd::Exhausted { tried: outcomes.len() }),
{
    lemma_race_exhausts(outcomes, 0);
}

} // verus!
