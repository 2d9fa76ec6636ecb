//! The sessions that are open to the services of a space, and the search for one.

use vstd::prelude::*;
use crate::address::Address;
use crate::error::{BoxError, Error};
use crate::name_map::NameMap;
use crate::target::{Kind, Target};

verus! {

/// An address that could not be connected to.
#[derive(PartialEq, Eq, Debug)]
pub struct ConnectionError {
    pub address: Address,
    /// The text of the address.
    pub shown: String,
    pub source: Error,
}

impl ConnectionError {
    /// The text of the error.
    pub open spec fn text(self) -> Seq<char> {
        "could not connect to address \""@ + self.shown@ + "\""@
    }

    /// Renders the error.
    pub fn to_text(&self) -> (text: String)
        ensures
            text@ == self.text(),
    {
        let mut text = "could not connect to address \"".to_owned();
        text.append(self.shown.as_str());
        text.append("\"");
        text
    }
}

/// A service that could not be reached, with the connections that were tried.
#[derive(PartialEq, Eq, Debug)]
pub struct UnreachableServiceError(pub String, pub Vec<ConnectionError>);

/// The sessions that are open, by the names of the services that they were opened for. `W` stands
/// for a session that is not kept open by being known here.
#[derive(Debug)]
pub struct Store<W> {
    pub sessions: NameMap<W>,
}

impl<W> Store<W> {
    /// A store without sessions.
    pub fn new() -> (store: Store<W>)
        ensures
            store.sessions@ == Map::<Seq<char>, W>::empty(),
    {
        Store { sessions: NameMap::new() }
    }

    /// The session to a service, if it is known and still open. `upgrade` gives a session that is
    /// still open. A session that is not is forgotten.
    pub fn get<S, F: FnOnce(&W) -> Option<S>>(&mut self, name: &str, upgrade: F) -> (session: Option<S>)
        requires
            forall|weak: &W| upgrade.requires((weak,)),
        ensures
            old(self).sessions@.contains_key(name@) ==> {
                &&& upgrade.ensures((&old(self).sessions@[name@],), session)
                &&& final(self).sessions@ == (if session is Some {
                    old(self).sessions@
                } else {
                    old(self).sessions@.remove(name@)
                })
            },
            !old(self).sessions@.contains_key(name@) ==> session is None
                && final(self).sessions@ == old(self).sessions@,
    {
        match self.sessions.get(name) {
            Some(weak) => {
                let session = upgrade(weak);
                if session.is_none() {
                    self.sessions.remove(name);
                }
                session
            },
            None => None,
        }
    }

    /// Keeps the session that was opened for a service, in place of an earlier one.
    pub fn insert(&mut self, service_name: String, session: W)
        ensures
            final(self).sessions@ == old(self).sessions@.insert(service_name@, session),
    {
        self.sessions.set(service_name, session)
    }
}

/// A session that is kept for a service stays known, whatever is kept for other services, until it
/// is found not to be open any more or another one takes its place.
pub proof fn kept_session_stays_known<W>(
    sessions: Map<Seq<char>, W>,
    service: Seq<char>,
    session: W,
    other: Seq<char>,
    other_session: W,
)
    requires
        other != service,
    ensures
        sessions.insert(service, session).insert(other, other_session).contains_pair(
            service,
            session,
        ),
        sessions.insert(service, session).remove(other).contains_pair(service, session),
{
}

/// What is to be done next to reach a service.
#[derive(PartialEq, Eq, Debug)]
pub enum ConnectStep<'a> {
    /// Look for the session to a service.
    Find(&'a String),
    /// Open a session over a connection to an address.
    Open(Address),
    /// The search is over.
    Finish,
}

/// The search for a session to a service: its targets are tried one after the other, until one of
/// them leads to a session. `S` stands for a session.
#[derive(Debug)]
pub struct Connector<S> {
    pub service_name: String,
    pub targets: Vec<Target>,
    pub position: usize,
    pub errors: Vec<ConnectionError>,
    pub session: Option<S>,
}

/// What became of a target that was tried: a session, or nothing; for a connection that failed,
/// the text of its address and the error.
pub enum Outcome<S> {
    Found(Option<S>),
    Opened(Result<S, Error>, Seq<char>),
}

impl<S> Outcome<S> {
    /// The session that the target led to.
    pub open spec fn session(self) -> Option<S> {
        match self {
            Outcome::Found(session) => session,
            Outcome::Opened(Ok(session), _) => Some(session),
            Outcome::Opened(Err(_), _) => None,
        }
    }
}

impl<S> Connector<S> {
    /// The target that the search is at, unless it is over.
    pub open spec fn current(self) -> Option<Kind> {
        if self.session is None && self.position < self.targets@.len() {
            Some(self.targets@[self.position as int].0)
        } else {
            None
        }
    }

    /// Whether an outcome is one of the target that the search is at: a service is looked for, and
    /// a connection is opened to an endpoint.
    pub open spec fn awaits(self, outcome: Outcome<S>) -> bool {
        match self.current() {
            Some(Kind::Service(_)) => outcome is Found,
            Some(Kind::Endpoint(_)) => outcome is Opened,
            None => false,
        }
    }

    /// The search after its current target was tried: it is over where that led to a session, and
    /// otherwise goes on to the next target. A connection that failed is noted.
    pub open spec fn tried(self, outcome: Outcome<S>, after: Connector<S>) -> bool {
        &&& after.service_name == self.service_name
        &&& after.targets == self.targets
        &&& after.session == outcome.session()
        &&& after.position == (if outcome.session() is Some {
            self.position as int
        } else {
            self.position + 1
        })
        &&& match (self.current(), outcome) {
            (Some(Kind::Endpoint(address)), Outcome::Opened(Err(source), shown)) => {
                &&& after.errors@.len() == self.errors@.len() + 1
                &&& after.errors@.drop_last() == self.errors@
                &&& after.errors@.last().address == address
                &&& after.errors@.last().shown@ == shown
                &&& after.errors@.last().source == source
            },
            _ => after.errors@ == self.errors@,
        }
    }

    /// Starts the search.
    pub fn new(service_name: String, targets: Vec<Target>) -> (connector: Connector<S>)
        ensures
            connector.service_name == service_name,
            connector.targets == targets,
            connector.position == 0,
            connector.errors@ == Seq::<ConnectionError>::empty(),
            connector.session is None,
    {
        Connector { service_name, targets, position: 0, errors: Vec::new(), session: None }
    }

    /// What is to be done next.
    pub fn next(&self) -> (step: ConnectStep<'_>)
        ensures
            match self.current() {
                Some(Kind::Service(name)) => step matches ConnectStep::Find(n) && *n == name,
                Some(Kind::Endpoint(address)) => step == ConnectStep::Open(address),
                None => step is Finish,
            },
    {
        if self.session.is_some() || self.position >= self.targets.len() {
            return ConnectStep::Finish;
        }
        match self.targets[self.position].kind() {
            Kind::Service(name) => ConnectStep::Find(name),
            Kind::Endpoint(address) => ConnectStep::Open(*address),
        }
    }

    /// Goes on when the session to the service of the current target was looked for. At any other
    /// point of the search, nothing changes.
    pub fn found(&mut self, session: Option<S>)
        ensures
            if old(self).awaits(Outcome::Found(session)) {
                old(self).tried(Outcome::Found(session), *final(self))
            } else {
                *final(self) == *old(self)
            },
    {
        if self.session.is_none() && self.position < self.targets.len() {
            if self.targets[self.position].is_service_relative() {
                if session.is_none() {
                    self.position = self.position + 1;
                }
                self.session = session;
            }
        }
    }

    /// Goes on when a session was opened to the address of the current target, or could not be.
    /// `shown` is the text of the address. At any other point of the search, nothing changes.
    pub fn opened(&mut self, outcome: Result<S, Error>, shown: String)
        ensures
            if old(self).awaits(Outcome::Opened(outcome, shown@)) {
                old(self).tried(Outcome::Opened(outcome, shown@), *final(self))
            } else {
                *final(self) == *old(self)
            },
    {
        if self.session.is_none() && self.position < self.targets.len() {
            match self.targets[self.position].kind() {
                Kind::Endpoint(address) => {
                    let address = *address;
                    match outcome {
                        Ok(session) => {
                            self.session = Some(session);
                        },
                        Err(source) => {
                            self.errors.push(ConnectionError { address, shown, source });
                            self.position = self.position + 1;
                            assert(self.errors@.drop_last() =~= old(self).errors@);
                        },
                    }
                },
                Kind::Service(_) => {},
            }
        }
    }

    /// The session that the search led to, or the error that no target led to one.
    pub fn finish(self) -> (result: Result<S, Error>)
        ensures
            result == (match self.session {
                Some(session) => Ok(session),
                None => Err(
                    Error::Other(
                        BoxError::UnreachableService(
                            UnreachableServiceError(self.service_name, self.errors),
                        ),
                    ),
                ),
            }),
    {
        match self.session {
            Some(session) => Ok(session),
            None => Err(
                Error::Other(
                    BoxError::UnreachableService(
                        UnreachableServiceError(self.service_name, self.errors),
                    ),
                ),
            ),
        }
    }
}

/// What becomes of the open sessions and of a search when a session was opened to the address of
/// the current target of the search, or could not be: a session that was opened is kept under the
/// name of the service that is searched for. `weak` is what is kept of it.
pub open spec fn session_opened<S, W>(
    sessions: Map<Seq<char>, W>,
    search: Connector<S>,
    outcome: Result<S, Error>,
    shown: Seq<char>,
    weak: W,
    sessions_after: Map<Seq<char>, W>,
    search_after: Connector<S>,
) -> bool {
    if search.awaits(Outcome::Opened(outcome, shown)) {
        &&& search.tried(Outcome::Opened(outcome, shown), search_after)
        &&& sessions_after == (if outcome is Ok {
            sessions.insert(search.service_name@, weak)
        } else {
            sessions
        })
    } else {
        sessions_after == sessions && search_after == search
    }
}

/// What becomes of the open sessions and of a search when the session to the service of its current
/// target is looked for. `upgraded` is the session that what is kept for the service gives, where
/// something is kept: one that is not open any more is forgotten.
pub open spec fn session_looked_for<S, W>(
    sessions: Map<Seq<char>, W>,
    search: Connector<S>,
    upgraded: Option<S>,
    sessions_after: Map<Seq<char>, W>,
    search_after: Connector<S>,
) -> bool {
    match search.current() {
        Some(Kind::Service(name)) => if sessions.contains_key(name@) {
            &&& search.tried(Outcome::Found(upgraded), search_after)
            &&& sessions_after == (if upgraded is Some {
                sessions
            } else {
                sessions.remove(name@)
            })
        } else {
            &&& search.tried(Outcome::Found(None), search_after)
            &&& sessions_after == sessions
        },
        _ => sessions_after == sessions && search_after == search,
    }
}

impl<W> Store<W> {
    /// Goes on with a search when a session was opened to the address of its current target, or
    /// could not be, and keeps a session that was opened for the service that is searched for.
    /// `shown` is the text of the address, and `downgrade` gives what is kept of a session.
    pub fn opened<S, F: FnOnce(&S) -> W>(
        &mut self,
        search: &mut Connector<S>,
        outcome: Result<S, Error>,
        shown: String,
        downgrade: F,
    )
        requires
            forall|session: &S| downgrade.requires((session,)),
        ensures
            exists|weak: W|
                {
                    &&& #[trigger] session_opened(
                        old(self).sessions@,
                        *old(search),
                        outcome,
                        shown@,
                        weak,
                        final(self).sessions@,
                        *final(search),
                    )
                    &&& old(search).awaits(Outcome::Opened(outcome, shown@)) && outcome is Ok
                        ==> downgrade.ensures((&outcome->Ok_0,), weak)
                },
    {
        let ghost before = self.sessions@;
        let ghost start = *search;
        let ghost text = shown@;
        let ghost any: W = arbitrary();
        match search.next() {
            ConnectStep::Open(_) => {
                match outcome {
                    Ok(session) => {
                        let weak = downgrade(&session);
                        self.insert(search.service_name.clone(), weak);
                        search.opened(Ok(session), shown);
                        assert(session_opened(
                            before,
                            start,
                            outcome,
                            text,
                            weak,
                            self.sessions@,
                            *search,
                        ));
                    },
                    Err(err) => {
                        search.opened(Err(err), shown);
                        assert(session_opened(
                            before,
                            start,
                            outcome,
                            text,
                            any,
                            self.sessions@,
                            *search,
                        ));
                    },
                }
            },
            _ => {
                assert(session_opened(before, start, outcome, text, any, self.sessions@, *search));
            },
        }
    }

    /// Goes on with a search whose current target is a service: looks for the session to that
    /// service. `upgrade` gives a session that is still open.
    pub fn find<S, F: FnOnce(&W) -> Option<S>>(&mut self, search: &mut Connector<S>, upgrade: F)
        requires
            forall|weak: &W| upgrade.requires((weak,)),
        ensures
            exists|upgraded: Option<S>|
                {
                    &&& #[trigger] session_looked_for(
                        old(self).sessions@,
                        *old(search),
                        upgraded,
                        final(self).sessions@,
                        *final(search),
                    )
                    &&& match old(search).current() {
                        Some(Kind::Service(name)) => old(self).sessions@.contains_key(name@)
                            ==> upgrade.ensures((&old(self).sessions@[name@],), upgraded),
                        _ => true,
                    }
                },
    {
        let ghost before = self.sessions@;
        let ghost start = *search;
        let name = match search.next() {
            ConnectStep::Find(name) => name.clone(),
            _ => {
                let ghost none: Option<S> = None;
                assert(session_looked_for(before, start, none, self.sessions@, *search));
                return ;
            },
        };
        let found = self.get(name.as_str(), upgrade);
        let ghost upgraded = found;
        search.found(found);
        assert(session_looked_for(before, start, upgraded, self.sessions@, *search));
    }
}

/// A session that a search opened for a service is found by a later search at a target that stands
/// for that service, as long as it is still open: what is kept of it is what the later search asks
/// for the session.
pub proof fn opened_session_is_found<S, W>(
    sessions: Map<Seq<char>, W>,
    search: Connector<S>,
    session: S,
    shown: Seq<char>,
    weak: W,
    kept: Map<Seq<char>, W>,
    search_after: Connector<S>,
    later: Connector<S>,
    name: String,
    upgraded: Option<S>,
    kept_after: Map<Seq<char>, W>,
    later_after: Connector<S>,
)
    requires
        search.awaits(Outcome::Opened(Ok(session), shown)),
        session_opened(sessions, search, Ok(session), shown, weak, kept, search_after),
        later.current() == Some(Kind::Service(name)),
        name@ == search.service_name@,
        session_looked_for(kept, later, upgraded, kept_after, later_after),
    ensures
        search_after.session == Some(session),
        kept.contains_pair(name@, weak),
        later_after.session == upgraded,
        upgraded is Some ==> later_after.current() is None && kept_after == kept,
{
}

/// A search: the states that it goes through, and what became of each target that was tried.
pub open spec fn search<S>(states: Seq<Connector<S>>, outcomes: Seq<Outcome<S>>) -> bool {
    &&& states.len() == outcomes.len() + 1
    &&& states[0].position == 0
    &&& states[0].errors@.len() == 0
    &&& states[0].session is None
    &&& forall|i: int|
        0 <= i < outcomes.len() ==> states[i].awaits(#[trigger] outcomes[i]) && states[i].tried(
            outcomes[i],
            states[i + 1],
        )
}

/// The number of endpoints among the first targets.
pub open spec fn endpoints_among(targets: Seq<Target>, count: int) -> int
    decreases count,
{
    if count <= 0 {
        0
    } else {
        endpoints_among(targets, count - 1) + (if targets[count - 1].0 is Endpoint {
            1int
        } else {
            0
        })
    }
}

/// A search tries its targets in order, each once, as long as none led to a session, and remembers
/// why every endpoint failed: after any number of targets that did not lead to a session it is at
/// the following one, and its errors are those of the endpoints so far, in order.
pub proof fn search_tries_targets_in_order<S>(
    states: Seq<Connector<S>>,
    outcomes: Seq<Outcome<S>>,
    i: int,
)
    requires
        search(states, outcomes),
        0 <= i <= outcomes.len(),
        forall|j: int| 0 <= j < i ==> (#[trigger] outcomes[j]).session() is None,
    ensures
        states[i].targets == states[0].targets,
        states[i].service_name == states[0].service_name,
        states[i].session is None,
        states[i].position == i,
        i <= states[0].targets@.len(),
        states[i].errors@.len() == endpoints_among(states[0].targets@, i),
        forall|j: int|
            0 <= j < i && states[0].targets@[j].0 is Endpoint ==> {
                let k = endpoints_among(states[0].targets@, j);
                &&& 0 <= k < states[i].errors@.len()
                &&& Kind::Endpoint(states[i].errors@[k].address) == states[0].targets@[j].0
                &&& #[trigger] outcomes[j] == Outcome::<S>::Opened(
                    Err(states[i].errors@[k].source),
                    states[i].errors@[k].shown@,
                )
            },
    decreases i,
{
    if i > 0 {
        search_tries_targets_in_order(states, outcomes, i - 1);
        assert(states[i - 1].awaits(outcomes[i - 1]));
        assert(states[i - 1].tried(outcomes[i - 1], states[i - 1 + 1]));
        let before = states[i - 1].errors@;
        let after = states[i].errors@;
        let targets = states[0].targets@;
        assert forall|k: int| 0 <= k < before.len() implies after[k] == before[k] by {
            if targets[i - 1].0 is Endpoint {
                assert(after.drop_last()[k] == before[k]);
            }
        }
    }
}

/// The first target that leads to a session ends the search, with that session.
pub proof fn first_session_ends_the_search<S>(
    states: Seq<Connector<S>>,
    outcomes: Seq<Outcome<S>>,
    i: int,
)
    requires
        search(states, outcomes),
        0 <= i < outcomes.len(),
        outcomes[i].session() is Some,
    ensures
        i == outcomes.len() - 1,
        states[i + 1].session == outcomes[i].session(),
        states[i + 1].current() is None,
{
    assert(states[i].tried(outcomes[i], states[i + 1]));
    if i + 1 < outcomes.len() {
        assert(states[i + 1].awaits(outcomes[i + 1]));
    }
}

/// A search that is over without a session has tried all its targets.
pub proof fn search_gives_up_only_at_the_end<S>(
    states: Seq<Connector<S>>,
    outcomes: Seq<Outcome<S>>,
)
    requires
        search(states, outcomes),
        states.last().current() is None,
        states.last().session is None,
    ensures
        outcomes.len() == states[0].targets@.len(),
        forall|j: int| 0 <= j < outcomes.len() ==> (#[trigger] outcomes[j]).session() is None,
{
    assert forall|j: int| 0 <= j < outcomes.len() implies (
    #[trigger] outcomes[j]).session() is None by {
        if outcomes[j].session() is Some {
            first_session_ends_the_search(states, outcomes, j);
        }
    }
    search_tries_targets_in_order(states, outcomes, outcomes.len() as int);
}

} // verus!
