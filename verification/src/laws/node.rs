//! How a node is set up, and in which order it tries the endpoints of a service.

use vstd::prelude::*;
use crate::address::{Address, SocketAddr};
use crate::capabilities::KeyDynValueMap;
use crate::node::{
    self, of_class, sort_service_endpoints, sorted_endpoints, ConnectToSpace, HostSpace,
    InitializingNode, Node, NotSet,
};
use crate::meta::ActionNameOrId;
use crate::os::MachineId;
use crate::service::Info;
use crate::service_directory::ServiceInfoMap;
use crate::store::Connector;
use crate::target::{Kind, Target};

verus! {

/// What endpoints are ordered by: whether one stands for a service, and whether it is an address
/// that only reaches the machine that both the service and the node are on.
pub open spec fn tried_by(endpoint: Target, same_machine: bool) -> (bool, bool) {
    match endpoint.0 {
        Kind::Service(_) => (true, false),
        Kind::Endpoint(Address::Tcp { address: SocketAddr::V4 { ip, .. }, .. }) => (
            false,
            same_machine && 0x7f00_0000 <= ip <= 0x7fff_ffff,
        ),
        Kind::Endpoint(Address::Tcp { address: SocketAddr::V6 { ip, .. }, .. }) => (
            false,
            same_machine && ip == 1,
        ),
    }
}

/// Whether a pair is not after another one, by its first part and then by its second, and false
/// before true.
pub open spec fn not_after(a: (bool, bool), b: (bool, bool)) -> bool {
    (!a.0 && b.0) || (a.0 == b.0 && (!a.1 || b.1))
}

/// The endpoints of a service are tried by what they are ordered by, whatever else they hold: none
/// is added, lost or tried twice, and those that are equal in it stay in the order in which they
/// were told.
pub proof fn endpoints_are_tried_in_order(service: &Info, local: MachineId, tried: Vec<Target>)
    requires
        call_ensures(sort_service_endpoints, (service, local), tried),
    ensures
        in_trial_order(service.endpoints@, service.machine_id.0 == local.0, tried@),
{
    sorted_are_in_trial_order(service.endpoints@, service.machine_id == local);
}

/// Whether a list of endpoints is another one in the order in which they are tried.
pub open spec fn in_trial_order(told: Seq<Target>, same_machine: bool, tried: Seq<Target>) -> bool {
    &&& tried.len() == told.len()
    &&& tried.to_multiset() == told.to_multiset()
    &&& forall|i: int, j: int|
        0 <= i < j < tried.len() ==> not_after(
            tried_by(#[trigger] tried[i], same_machine),
            tried_by(#[trigger] tried[j], same_machine),
        )
    &&& forall|key: (bool, bool)| #[trigger]
        equal_in(tried, same_machine, key) == equal_in(told, same_machine, key)
}

/// The endpoints of a list that are equal in what they are ordered by, as they stand.
pub open spec fn equal_in(list: Seq<Target>, same_machine: bool, key: (bool, bool)) -> Seq<Target> {
    list.filter(|endpoint: Target| tried_by(endpoint, same_machine) == key)
}

/// Two filters that agree give the same.
proof fn same_filter(list: Seq<Target>, p: spec_fn(Target) -> bool, q: spec_fn(Target) -> bool)
    requires
        forall|x: Target| #[trigger] p(x) == q(x),
    ensures
        list.filter(p) == list.filter(q),
    decreases list.len(),
{
    reveal(Seq::filter);
    if list.len() > 0 {
        same_filter(list.drop_last(), p, q);
        assert(p(list.last()) == q(list.last()));
    }
}

/// Sorted endpoints are in the order in which they are tried.
proof fn sorted_are_in_trial_order(told: Seq<Target>, same_machine: bool)
    ensures
        in_trial_order(told, same_machine, sorted_endpoints(told, same_machine)),
{
    let tried = sorted_endpoints(told, same_machine);
    node::sorting_keeps_all_endpoints(told, same_machine);
    told.to_multiset_ensures();
    tried.to_multiset_ensures();
    assert forall|i: int, j: int| 0 <= i < j < tried.len() implies not_after(
        tried_by(#[trigger] tried[i], same_machine),
        tried_by(#[trigger] tried[j], same_machine),
    ) by {
        node::sorted_endpoints_are_in_order(told, same_machine, i, j);
    }
    assert forall|key: (bool, bool)| #[trigger]
        equal_in(tried, same_machine, key) == equal_in(told, same_machine, key) by {
        let class: int = (if key.0 { 2int } else { 0 }) + (if key.1 { 1int } else { 0 });
        let by_key = |endpoint: Target| tried_by(endpoint, same_machine) == key;
        let by_class = |endpoint: Target| node::endpoint_class(endpoint, same_machine) == class;
        assert forall|x: Target| #[trigger] by_key(x) == by_class(x) by {}
        same_filter(tried, by_key, by_class);
        same_filter(told, by_key, by_class);
        node::sorting_is_stable(told, same_machine, class);
        assert(equal_in(tried, same_machine, key) == tried.filter(by_key));
        assert(equal_in(told, same_machine, key) == told.filter(by_key));
        assert(tried.filter(by_class) == of_class(tried, same_machine, class));
        assert(told.filter(by_class) == of_class(told, same_machine, class));
    }
}

/// The search for a session to a service starts with nothing tried, goes by the name that was asked
/// for, and tries the endpoints of the service in order.
pub proof fn search_for_a_service<SD, T, V, S>(
    node: &Node<SD, T, V>,
    name: &str,
    service: &Info,
    local: MachineId,
    search: Connector<S>,
)
    requires
        call_ensures(Node::<SD, T, V>::service::<S>, (node, name, service, local), search),
    ensures
        search.service_name@ == name@,
        search.position == 0,
        search.errors@.len() == 0,
        search.session is None,
        in_trial_order(service.endpoints@, service.machine_id.0 == local.0, search.targets@),
{
    sorted_are_in_trial_order(service.endpoints@, service.machine_id == local);
}

/// A node gives its own directory.
pub proof fn directory_of_a_node<SD, T, V>(node: &Node<SD, T, V>, directory: &SD)
    requires
        call_ensures(Node::<SD, T, V>::service_directory, (node,), directory),
    ensures
        *directory == node.service_directory,
{
}

/// A node that is set up anew has no name, nothing that decides on authentication, no addresses and
/// no services.
pub proof fn fresh_node_has_nothing<A, O>(node: InitializingNode<NotSet, A, O>)
    requires
        call_ensures(node::init::<A, O>, (), node),
    ensures
        node.uid.0@.len() == 0,
        node.authenticator is None,
        node.bind_addresses@.len() == 0,
        forall|name: Seq<char>| !(#[trigger] node.pending_services@.contains_key(name)),
{
}

/// Setting what decides on authentication changes that alone.
pub proof fn setting_the_authenticator_changes_it_alone<M, A, O>(
    node: &mut InitializingNode<M, A, O>,
    authenticator: A,
    given: &mut InitializingNode<M, A, O>,
)
    requires
        call_ensures(
            InitializingNode::<M, A, O>::with_authenticator,
            (node, authenticator),
            given,
        ),
    ensures
        *final(node) == *final(given),
        old(given).authenticator == Some(authenticator),
        old(given).uid == old(node).uid,
        old(given).bind_addresses == old(node).bind_addresses,
        old(given).pending_services == old(node).pending_services,
        old(given).method == old(node).method,
{
}

/// Adding a service adds its object under its name, and leaves all other services and all else as
/// they were.
pub proof fn adding_a_service_changes_one_name<M, A, O>(
    node: &mut InitializingNode<M, A, O>,
    name: String,
    object: O,
    given: &mut InitializingNode<M, A, O>,
)
    requires
        call_ensures(InitializingNode::<M, A, O>::add_service, (node, name, object), given),
    ensures
        *final(node) == *final(given),
        old(given).pending_services@.contains_key(name@)
            && old(given).pending_services@[name@] == object,
        forall|other: Seq<char>|
            other != name@ ==> (#[trigger] old(given).pending_services@.contains_key(other) <==> old(node).pending_services@.contains_key(other)),
        forall|other: Seq<char>|
            other != name@ && old(node).pending_services@.contains_key(other) ==> #[trigger] old(given).pending_services@[other] == old(node).pending_services@[other],
        old(given).uid == old(node).uid,
        old(given).authenticator == old(node).authenticator,
        old(given).bind_addresses == old(node).bind_addresses,
        old(given).method == old(node).method,
{
}

/// Binding a node adds the address after those that it has, and leaves all else as it was.
pub proof fn binding_adds_one_address<M, A, O>(
    node: &mut InitializingNode<M, A, O>,
    address: Address,
    given: &mut InitializingNode<M, A, O>,
)
    requires
        call_ensures(InitializingNode::<M, A, O>::bind, (node, address), given),
    ensures
        *final(node) == *final(given),
        old(given).bind_addresses@.len() == old(node).bind_addresses@.len() + 1,
        old(given).bind_addresses@.last() == address,
        forall|i: int|
            0 <= i < old(node).bind_addresses@.len() ==> #[trigger] old(given).bind_addresses@[i]
                == old(node).bind_addresses@[i],
        old(given).uid == old(node).uid,
        old(given).authenticator == old(node).authenticator,
        old(given).pending_services == old(node).pending_services,
        old(given).method == old(node).method,
{
}

/// Choosing a space keeps all else of a node, and the address and the credentials that are given.
pub proof fn choosing_a_space_keeps_all_else<M, A, O>(
    node: InitializingNode<M, A, O>,
    address: Address,
    credentials: Option<KeyDynValueMap>,
    connected: InitializingNode<ConnectToSpace, A, O>,
    hosting: InitializingNode<HostSpace, A, O>,
)
    requires
        call_ensures(
            InitializingNode::<M, A, O>::connect_to_space,
            (node, address, credentials),
            connected,
        ),
        call_ensures(InitializingNode::<M, A, O>::host_space, (node,), hosting),
    ensures
        connected.uid == node.uid && hosting.uid == node.uid,
        connected.authenticator == node.authenticator && hosting.authenticator
            == node.authenticator,
        connected.bind_addresses == node.bind_addresses && hosting.bind_addresses
            == node.bind_addresses,
        connected.pending_services == node.pending_services && hosting.pending_services
            == node.pending_services,
        connected.method.address == address,
        connected.method.credentials == credentials,
{
}

/// The directory of a space is looked for at the one address that was chosen, under its name, with
/// the credentials that were given or else none.
pub proof fn directory_is_sought_at_the_chosen_address<S>(
    space: ConnectToSpace,
    plan: (Connector<S>, KeyDynValueMap),
)
    requires
        call_ensures(ConnectToSpace::create_service_directory::<S>, (space,), plan),
    ensures
        plan.0.service_name@ == "ServiceDirectory"@,
        plan.0.targets@.len() == 1,
        plan.0.targets@[0].0 == Kind::Endpoint(space.address),
        plan.0.position == 0,
        plan.0.errors@.len() == 0,
        plan.0.session is None,
        space.credentials is Some ==> plan.1 == space.credentials->Some_0,
        space.credentials is None ==> forall|key: Seq<char>| !(#[trigger] plan.1@.contains_key(key)),
{
}

/// The directory of a new space knows no service, and gives the identifier two first.
pub proof fn directory_of_a_new_space(space: HostSpace, directory: ServiceInfoMap)
    requires
        call_ensures(HostSpace::create_service_directory, (space,), directory),
    ensures
        forall|id: u32| !(#[trigger] directory@.pending.contains_key(id)),
        forall|id: u32| !(#[trigger] directory@.ready.contains_key(id)),
        directory@.next_id == 2,
{
}

/// The identifier of a node that is made of a text is that text, and gives it back.
pub proof fn identifier_of_a_node_is_its_text(
    id: String,
    made: node::Uid,
    text: &str,
    parsed: Result<node::Uid, std::convert::Infallible>,
    uid: &node::Uid,
    rendered: String,
)
    requires
        call_ensures(node::Uid::from_string, (id,), made),
        call_ensures(node::Uid::parse, (text,), parsed),
        call_ensures(node::Uid::to_text, (uid,), rendered),
    ensures
        made.0@ == id@,
        parsed is Ok && parsed->Ok_0.0@ == text@,
        rendered@ == uid.0@,
{
}

/// Whether a character is a lower case hexadecimal digit.
pub open spec fn is_hex(c: char) -> bool {
    ('0' <= c && c <= '9') || ('a' <= c && c <= 'f')
}

/// Whether a text is that of a universally unique identifier: hexadecimal digits in groups of eight,
/// four, four, four and twelve, with hyphens between them.
pub open spec fn is_unique_id_text(text: Seq<char>) -> bool {
    &&& text.len() == 36
    &&& text[8] == '-' && text[13] == '-' && text[18] == '-' && text[23] == '-'
    &&& forall|i: int|
        0 <= i < 36 && i != 8 && i != 13 && i != 18 && i != 23 ==> is_hex(#[trigger] text[i])
}

/// A value is written as the text of a universally unique identifier.
proof fn hyphenated_text(value: u128)
    ensures
        is_unique_id_text(crate::unique_id::hyphenated(value)),
{
}

/// The identifier of a node that is drawn is the text of a universally unique identifier of version
/// four; the text that is made of a value is read as that value.
pub proof fn drawn_identifiers_are_unique_id_texts(
    drawn: node::Uid,
    value: u128,
    made: node::Uid,
    words: &str,
    read: Option<MachineId>,
)
    requires
        call_ensures(node::Uid::new, (), drawn),
        call_ensures(node::Uid::from_drawn, (value,), made),
        words@ == made.0@,
        call_ensures(MachineId::parse, (words,), read),
    ensures
        is_unique_id_text(drawn.0@),
        drawn.0@[14] == '4',
        drawn.0@[19] == '8' || drawn.0@[19] == '9' || drawn.0@[19] == 'a' || drawn.0@[19] == 'b',
        is_unique_id_text(made.0@),
        read is Some && read->Some_0.0 == value,
{
    let random = choose|random: u128| #[trigger]
        crate::unique_id::is_random_version(random) && drawn.0@ == crate::unique_id::hyphenated(
            random,
        );
    hyphenated_text(random);
    hyphenated_text(value);
    assert(drawn.0@[14] == crate::text::digit_char(crate::unique_id::hex_digit_at(random, 12)));
    assert(drawn.0@[19] == crate::text::digit_char(crate::unique_id::hex_digit_at(random, 16)));
    assert(words@ == MachineId(value).text());
}

/// Identifiers of nodes, names of actions and targets are copied as they are, and a node without an
/// identifier has an empty one.
pub proof fn copies_are_the_same(
    uid: &node::Uid,
    uid_copy: node::Uid,
    ident: &ActionNameOrId,
    ident_copy: ActionNameOrId,
    target: &Target,
    target_copy: Target,
    fresh: node::Uid,
)
    requires
        call_ensures(<node::Uid as Clone>::clone, (uid,), uid_copy),
        call_ensures(<ActionNameOrId as Clone>::clone, (ident,), ident_copy),
        call_ensures(<Target as Clone>::clone, (target,), target_copy),
        call_ensures(<node::Uid as Default>::default, (), fresh),
    ensures
        uid_copy == *uid,
        ident_copy == *ident,
        target_copy == *target,
        fresh.0@.len() == 0,
{
}

} // verus!
