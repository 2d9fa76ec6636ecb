//! How a session to a service is searched for and kept.

use vstd::prelude::*;
use crate::error::{BoxError, Error};
use crate::store::{
    ConnectStep, ConnectionError, Connector, Outcome, Store, UnreachableServiceError,
};
use crate::target::{Kind, Target};

verus! {

/// The text of a failed connection names the address.
pub proof fn text_of_a_failed_connection(err: &ConnectionError, text: String)
    requires
        call_ensures(ConnectionError::to_text, (err,), text),
    ensures
        text@ == "could not connect to address \""@ + err.shown@ + "\""@,
{
}

/// A store that was just made keeps no session.
pub proof fn new_store_is_empty<W>(store: Store<W>)
    requires
        call_ensures(Store::<W>::new, (), store),
    ensures
        forall|name: Seq<char>| !(#[trigger] store.sessions@.contains_key(name)),
{
}

/// Whether a store keeps what it kept, but for one name.
pub open spec fn keeps_all_but<W>(
    before: Map<Seq<char>, W>,
    after: Map<Seq<char>, W>,
    name: Seq<char>,
) -> bool {
    &&& forall|other: Seq<char>|
        other != name ==> (#[trigger] after.contains_key(other) <==> before.contains_key(other))
    &&& forall|other: Seq<char>|
        other != name && before.contains_key(other) ==> #[trigger] after[other] == before[other]
}

/// Keeping a session keeps it under the name of its service, and leaves all others as they were.
pub proof fn keeping_a_session_changes_one_name<W>(store: &mut Store<W>, name: String, session: W)
    requires
        call_ensures(Store::<W>::insert, (store, name, session), ()),
    ensures
        final(store).sessions@.contains_key(name@),
        final(store).sessions@[name@] == session,
        keeps_all_but(old(store).sessions@, final(store).sessions@, name@),
{
}

/// A session that is asked for is what is kept under its name, if that is still open; what is not is
/// forgotten. All others stay.
pub proof fn asking_forgets_closed_sessions<W, S, F: FnOnce(&W) -> Option<S>>(
    store: &mut Store<W>,
    name: &str,
    upgrade: F,
    session: Option<S>,
)
    requires
        forall|weak: &W| upgrade.requires((weak,)),
        call_ensures(Store::<W>::get::<S, F>, (store, name, upgrade), session),
    ensures
        keeps_all_but(old(store).sessions@, final(store).sessions@, name@),
        !old(store).sessions@.contains_key(name@) ==> session is None,
        old(store).sessions@.contains_key(name@) ==> upgrade.ensures(
            (&old(store).sessions@[name@],),
            session,
        ),
        final(store).sessions@.contains_key(name@) <==> session is Some,
        session is Some ==> final(store).sessions@[name@] == old(store).sessions@[name@],
{
}

/// A search starts at its first target, with nothing tried.
pub proof fn searches_start_at_the_first_target<S>(
    name: String,
    targets: Vec<Target>,
    search: Connector<S>,
)
    requires
        call_ensures(Connector::<S>::new, (name, targets), search),
    ensures
        search.service_name == name,
        search.targets == targets,
        search.position == 0,
        search.errors@.len() == 0,
        search.session is None,
{
}

/// Whether a search is at a target that is a service.
pub open spec fn is_at_service<S>(search: Connector<S>) -> bool {
    search.session is None && search.position < search.targets@.len()
        && search.targets@[search.position as int].0 is Service
}

/// Whether a search is at a target that is an endpoint.
pub open spec fn is_at_endpoint<S>(search: Connector<S>) -> bool {
    search.session is None && search.position < search.targets@.len()
        && search.targets@[search.position as int].0 is Endpoint
}

/// A search that has a session or no target left is over; otherwise its target is what is done next:
/// a service is looked for, and an endpoint is connected to.
pub proof fn next_step_is_the_current_target<S>(search: &Connector<S>, step: ConnectStep)
    requires
        call_ensures(Connector::<S>::next, (search,), step),
    ensures
        step is Finish <==> search.session is Some || search.position >= search.targets@.len(),
        is_at_service(*search) ==> (step matches ConnectStep::Find(name) && Kind::Service(*name)
            == search.targets@[search.position as int].0),
        is_at_endpoint(*search) ==> (step matches ConnectStep::Open(address) && Kind::Endpoint(
            address,
        ) == search.targets@[search.position as int].0),
{
}

/// A session that was found at a service ends the search; where none was, the search goes on to the
/// next target. At any other target nothing changes.
pub proof fn found_sessions_end_the_search<S>(search: &mut Connector<S>, session: Option<S>)
    requires
        call_ensures(Connector::<S>::found, (search, session), ()),
    ensures
        final(search).service_name == old(search).service_name,
        final(search).targets == old(search).targets,
        final(search).errors@ == old(search).errors@,
        is_at_service(*old(search)) ==> final(search).session == session,
        is_at_service(*old(search)) && session is Some ==> final(search).position == old(
            search,
        ).position,
        is_at_service(*old(search)) && session is None ==> final(search).position == old(
            search,
        ).position + 1,
        !is_at_service(*old(search)) ==> *final(search) == *old(search),
{
}

/// A session that was opened to an endpoint ends the search; where it could not be, the search goes
/// on to the next target and remembers the address and the reason behind those that it knows. At any
/// other target nothing changes.
pub proof fn opened_sessions_end_the_search<S>(
    search: &mut Connector<S>,
    outcome: Result<S, Error>,
    shown: String,
)
    requires
        call_ensures(Connector::<S>::opened, (search, outcome, shown), ()),
    ensures
        went_on_from_endpoint(*old(search), outcome, shown@, *final(search)),
{
}

/// Whether a search went on from an endpoint with what came of connecting to it.
pub open spec fn went_on_from_endpoint<S>(
    before: Connector<S>,
    outcome: Result<S, Error>,
    shown: Seq<char>,
    after: Connector<S>,
) -> bool {
    if is_at_endpoint(before) {
        &&& after.service_name == before.service_name
        &&& after.targets == before.targets
        &&& match outcome {
            Ok(session) => {
                &&& after.session == Some(session)
                &&& after.position == before.position
                &&& after.errors@ == before.errors@
            },
            Err(source) => {
                &&& after.session is None
                &&& after.position == before.position + 1
                &&& after.errors@.len() == before.errors@.len() + 1
                &&& after.errors@.drop_last() == before.errors@
                &&& Kind::Endpoint(after.errors@.last().address)
                    == before.targets@[before.position as int].0
                &&& after.errors@.last().shown@ == shown
                &&& after.errors@.last().source == source
            },
        }
    } else {
        after == before
    }
}

/// A search ends with its session, or with the error that names the service and holds what was
/// tried.
pub proof fn searches_end_with_their_session<S>(search: Connector<S>, result: Result<S, Error>)
    requires
        call_ensures(Connector::<S>::finish, (search,), result),
    ensures
        search.session is Some ==> result == Ok::<S, Error>(search.session->Some_0),
        search.session is None ==> (result matches Err(
            Error::Other(BoxError::UnreachableService(UnreachableServiceError(name, tried))),
        ) && name == search.service_name && tried == search.errors),
{
}

/// A session that was opened for a search is kept under the name of the service that is searched
/// for, and ends the search; where none was, nothing else is kept and the search goes on.
pub proof fn opened_sessions_are_kept<W, S, F: FnOnce(&S) -> W>(
    store: &mut Store<W>,
    search: &mut Connector<S>,
    outcome: Result<S, Error>,
    shown: String,
    downgrade: F,
)
    requires
        forall|session: &S| downgrade.requires((session,)),
        call_ensures(Store::<W>::opened::<S, F>, (store, search, outcome, shown, downgrade), ()),
    ensures
        went_on_from_endpoint(*old(search), outcome, shown@, *final(search)),
        keeps_all_but(
            old(store).sessions@,
            final(store).sessions@,
            old(search).service_name@,
        ),
        is_at_endpoint(*old(search)) && outcome is Ok ==> final(store).sessions@.contains_key(
            old(search).service_name@,
        ) && downgrade.ensures(
            (&outcome->Ok_0,),
            final(store).sessions@[old(search).service_name@],
        ),
        !(is_at_endpoint(*old(search)) && outcome is Ok) ==> final(store).sessions@
            == old(store).sessions@,
{
    let weak = choose|weak: W|
        {
            &&& #[trigger] crate::store::session_opened(
                old(store).sessions@,
                *old(search),
                outcome,
                shown@,
                weak,
                final(store).sessions@,
                *final(search),
            )
            &&& old(search).awaits(Outcome::Opened(outcome, shown@)) && outcome is Ok
                ==> downgrade.ensures((&outcome->Ok_0,), weak)
        };
    assert(is_at_endpoint(*old(search)) <==> old(search).awaits(
        Outcome::Opened(outcome, shown@),
    ));
}

/// A search at a service takes the session that is kept under the name of that service, if it is
/// still open, and goes on to the next target otherwise. At any other target nothing changes.
pub proof fn kept_sessions_are_taken<W, S, F: FnOnce(&W) -> Option<S>>(
    store: &mut Store<W>,
    search: &mut Connector<S>,
    upgrade: F,
    name: Seq<char>,
)
    requires
        forall|weak: &W| upgrade.requires((weak,)),
        call_ensures(Store::<W>::find::<S, F>, (store, search, upgrade), ()),
        is_at_service(*old(search)),
        old(search).targets@[old(search).position as int].0->Service_0@ == name,
    ensures
        final(search).service_name == old(search).service_name,
        final(search).targets == old(search).targets,
        final(search).errors@ == old(search).errors@,
        final(search).position == old(search).position + (if final(search).session is Some {
            0int
        } else {
            1
        }),
        keeps_all_but(old(store).sessions@, final(store).sessions@, name),
        old(store).sessions@.contains_key(name) ==> upgrade.ensures(
            (&old(store).sessions@[name],),
            final(search).session,
        ),
        !old(store).sessions@.contains_key(name) ==> final(search).session is None,
        final(store).sessions@.contains_key(name) <==> final(search).session is Some,
        final(search).session is Some ==> final(store).sessions@[name]
            == old(store).sessions@[name],
{
}

/// A search that is not at a service is left alone where a session is looked for.
pub proof fn other_searches_are_left_alone<W, S, F: FnOnce(&W) -> Option<S>>(
    store: &mut Store<W>,
    search: &mut Connector<S>,
    upgrade: F,
)
    requires
        forall|weak: &W| upgrade.requires((weak,)),
        call_ensures(Store::<W>::find::<S, F>, (store, search, upgrade), ()),
        !is_at_service(*old(search)),
    ensures
        *final(search) == *old(search),
        final(store).sessions@ == old(store).sessions@,
{
}

} // verus!
