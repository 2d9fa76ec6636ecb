//! The endpoints at which the servers of a node can be reached.

use vstd::prelude::*;
use crate::address::{rank_distinguishes, Address, IpAddr, SocketAddr, Ssl};
use crate::target::{Kind, Target};

verus! {

/// How the endpoints of a server are known.
#[derive(Clone, Copy, PartialEq, Eq, Structural, Debug)]
pub enum EndpointsSource {
    /// The server is bound to all network interfaces of the host: its endpoints are their
    /// addresses, which may change, with this port and this security.
    Interfaces { port: u16, ssl: Option<Ssl> },
    /// The server has exactly one endpoint, its own address, for good.
    Own(Address),
}

/// How long the addresses of the network interfaces are not looked at again, in seconds.
pub const NETWORK_INTERFACES_REFRESH_INTERVAL: u64 = 5;

/// How the endpoints of a server that is bound to an address are known, in contracts.
pub open spec fn source_of(local_address: Address) -> EndpointsSource {
    match local_address {
        Address::Tcp { address, ssl } => if address.spec_ip().unspecified() {
            EndpointsSource::Interfaces { port: address.spec_port(), ssl }
        } else {
            EndpointsSource::Own(local_address)
        },
    }
}

/// Tells how the endpoints of a server that is bound to an address are known.
pub fn endpoints_source(local_address: Address) -> (source: EndpointsSource)
    ensures
        source == source_of(local_address),
{
    match local_address {
        Address::Tcp { address, ssl } => if address.ip().is_unspecified() {
            EndpointsSource::Interfaces { port: address.port(), ssl }
        } else {
            EndpointsSource::Own(local_address)
        },
    }
}

/// The endpoint at the address of a network interface.
pub open spec fn endpoint_at(ip: IpAddr, port: u16, ssl: Option<Ssl>) -> Address {
    Address::Tcp { address: SocketAddr::spec_new(ip, port), ssl }
}

/// The endpoints at the addresses of network interfaces, in the same order.
pub fn interface_endpoints(interfaces: &Vec<IpAddr>, port: u16, ssl: Option<Ssl>) -> (endpoints: Vec<
    Address,
>)
    ensures
        endpoints@ == interfaces@.map_values(|ip: IpAddr| endpoint_at(ip, port, ssl)),
{
    let mut endpoints: Vec<Address> = Vec::new();
    let mut i: usize = 0;
    while i < interfaces.len()
        invariant
            i <= interfaces@.len(),
            endpoints@.len() == i,
            forall|j: int|
                0 <= j < i ==> #[trigger] endpoints@[j] == endpoint_at(interfaces@[j], port, ssl),
        decreases interfaces@.len() - i,
    {
        endpoints.push(Address::Tcp { address: SocketAddr::new(interfaces[i], port), ssl });
        i += 1;
    }
    assert(endpoints@ =~= interfaces@.map_values(|ip: IpAddr| endpoint_at(ip, port, ssl)));
    endpoints
}

/// Tells whether two lists of addresses are the same.
fn same_addresses(a: &Vec<Address>, b: &Vec<Address>) -> (answer: bool)
    ensures
        answer == (a@ == b@),
{
    if a.len() != b.len() {
        return false;
    }
    let mut i: usize = 0;
    while i < a.len()
        invariant
            i <= a@.len() == b@.len(),
            forall|j: int| 0 <= j < i ==> a@[j] == b@[j],
        decreases a@.len() - i,
    {
        if !a[i].same(&b[i]) {
            return false;
        }
        i += 1;
    }
    assert(a@ =~= b@);
    true
}

/// Replaces the endpoints of a server if they changed, and tells whether they did.
pub fn replace_if_changed(endpoints: &mut Vec<Address>, new_endpoints: Vec<Address>) -> (changed: bool)
    ensures
        final(endpoints)@ == new_endpoints@,
        changed == (old(endpoints)@ != new_endpoints@),
{
    if same_addresses(endpoints, &new_endpoints) {
        false
    } else {
        *endpoints = new_endpoints;
        true
    }
}

/// What becomes of the endpoints of a server that is bound to an address, and whether those who
/// watch them are told. `interfaces` are the addresses of the network interfaces of the host, which
/// count for a server that is bound to all of them: those who watch are told if they changed. For
/// any other server, its own address is its only endpoint.
pub open spec fn updated_endpoints(
    local_address: Address,
    interfaces: Seq<IpAddr>,
    before: Seq<Address>,
) -> (Seq<Address>, bool) {
    match source_of(local_address) {
        EndpointsSource::Interfaces { port, ssl } => {
            let now = interfaces.map_values(|ip: IpAddr| endpoint_at(ip, port, ssl));
            (now, before != now)
        },
        EndpointsSource::Own(address) => (seq![address], true),
    }
}

/// Updates the endpoints that are watched of a server, and tells whether those who watch are to be
/// told. The address that stands with them is never changed.
pub fn update_address_endpoints(
    local_address: Address,
    interfaces: &Vec<IpAddr>,
    watched: &mut (Address, Vec<Address>),
) -> (modified: bool)
    ensures
        final(watched).0 == old(watched).0,
        (final(watched).1@, modified) == updated_endpoints(
            local_address,
            interfaces@,
            old(watched).1@,
        ),
{
    match endpoints_source(local_address) {
        EndpointsSource::Interfaces { port, ssl } => {
            let new_endpoints = interface_endpoints(interfaces, port, ssl);
            replace_if_changed(&mut watched.1, new_endpoints)
        },
        EndpointsSource::Own(address) => {
            let mut own: Vec<Address> = Vec::new();
            own.push(address);
            assert(own@ =~= seq![address]);
            watched.1 = own;
            true
        },
    }
}

/// The endpoints of several servers, by the addresses that the servers are bound to.
#[derive(Debug)]
pub struct EndpointsMap {
    entries: Vec<(Address, Vec<Address>)>,
}

/// Whether no address occurs twice in a list of entries.
pub open spec fn distinct_servers(entries: Seq<(Address, Vec<Address>)>) -> bool {
    forall|i: int, j: int|
        0 <= i < j < entries.len() ==> (#[trigger] entries[i]).0 != (#[trigger] entries[j]).0
}

/// What a list of entries without double addresses says of each server.
pub open spec fn servers_map(entries: Seq<(Address, Vec<Address>)>) -> Map<Address, Seq<Address>> {
    Map::new(
        |server: Address| exists|i: int| 0 <= i < entries.len() && (#[trigger] entries[i]).0 == server,
        |server: Address|
            entries[choose|i: int| 0 <= i < entries.len() && (#[trigger] entries[i]).0 == server].1@,
    )
}

impl View for EndpointsMap {
    type V = Map<Address, Seq<Address>>;

    closed spec fn view(&self) -> Map<Address, Seq<Address>> {
        servers_map(self.entries@)
    }
}

impl EndpointsMap {
    #[verifier::type_invariant]
    spec fn well_formed(&self) -> bool {
        distinct_servers(self.entries@)
    }

    /// No servers.
    pub fn new() -> (map: EndpointsMap)
        ensures
            map@ == Map::<Address, Seq<Address>>::empty(),
    {
        let map = EndpointsMap { entries: Vec::new() };
        assert(map@ =~= Map::<Address, Seq<Address>>::empty());
        map
    }

    /// Notes the endpoints of a server, in place of those that it had.
    pub fn insert(&mut self, server: Address, endpoints: Vec<Address>)
        ensures
            final(self)@ == old(self)@.insert(server, endpoints@),
    {
        proof {
            use_type_invariant(&*self);
        }
        let ghost before = self.entries@;
        let mut entries: Vec<(Address, Vec<Address>)> = Vec::new();
        core::mem::swap(&mut entries, &mut self.entries);
        let mut i: usize = 0;
        while i < entries.len() && !entries[i].0.same(&server)
            invariant
                i <= entries@.len(),
                entries@ == before,
                forall|j: int| 0 <= j < i ==> (#[trigger] entries@[j]).0 != server,
            decreases entries@.len() - i,
        {
            i += 1;
        }
        if i < entries.len() {
            entries.set(i, (server, endpoints));
        } else {
            entries.push((server, endpoints));
        }
        proof {
            let after = entries@;
            assert(after[i as int].0 == server);
            assert(distinct_servers(after));
            let m = servers_map(before).insert(server, endpoints@);
            assert forall|s: Address| servers_map(after).contains_key(s) <==> m.contains_key(s) by {
                if servers_map(after).contains_key(s) && s != server {
                    let k = choose|k: int| 0 <= k < after.len() && (#[trigger] after[k]).0 == s;
                    assert(before[k].0 == s);
                }
                if m.contains_key(s) && s != server {
                    let k = choose|k: int| 0 <= k < before.len() && (#[trigger] before[k]).0 == s;
                    assert(after[k].0 == s);
                }
            }
            assert forall|s: Address| servers_map(after).contains_key(s) implies servers_map(after)[s]
                == m[s] by {
                let k = choose|k: int| 0 <= k < after.len() && (#[trigger] after[k]).0 == s;
                if s != server {
                    assert(before[k].0 == s);
                    let k2 = choose|k: int| 0 <= k < before.len() && (#[trigger] before[k]).0 == s;
                    assert(k2 == k);
                }
            }
            assert(servers_map(after) =~= m);
        }
        self.entries = entries;
    }
}

/// Whether addresses stand in their order, each of them once.
pub open spec fn strictly_sorted(addresses: Seq<Address>) -> bool {
    forall|i: int, j: int|
        0 <= i < j < addresses.len() ==> (#[trigger] addresses[i]).rank() < (
        #[trigger] addresses[j]).rank()
}

/// Two lists of the same addresses, each in order and without double ones, are the same list.
pub proof fn strictly_sorted_list_is_unique(a: Seq<Address>, b: Seq<Address>)
    requires
        strictly_sorted(a),
        strictly_sorted(b),
        forall|x: Address| #[trigger] a.contains(x) <==> b.contains(x),
    ensures
        a == b,
    decreases a.len(),
{
    if a.len() == 0 {
        if b.len() > 0 {
            assert(b.contains(b[0]));
            assert(a.contains(b[0]));
        }
        assert(a =~= b);
    } else {
        assert(a.contains(a.last()));
        assert(b.contains(a.last()));
        let i = b.index_of(a.last());
        assert(b.contains(b.last()));
        assert(a.contains(b.last()));
        let j = a.index_of(b.last());
        assert(a[j].rank() <= a[a.len() - 1].rank());
        assert(b[i].rank() <= b[b.len() - 1].rank());
        rank_distinguishes(a.last(), b.last());
        let a_front = a.drop_last();
        let b_front = b.drop_last();
        assert forall|x: Address| #[trigger] a_front.contains(x) <==> b_front.contains(x) by {
            if a_front.contains(x) {
                let k = a_front.index_of(x);
                assert(a[k] == x && a[k].rank() < a[a.len() - 1].rank());
                assert(a.contains(x));
                assert(b.contains(x));
                let m = b.index_of(x);
                assert(b_front[m] == x);
            }
            if b_front.contains(x) {
                let k = b_front.index_of(x);
                assert(b[k] == x && b[k].rank() < b[b.len() - 1].rank());
                assert(b.contains(x));
                assert(a.contains(x));
                let m = a.index_of(x);
                assert(a_front[m] == x);
            }
        }
        strictly_sorted_list_is_unique(a_front, b_front);
        assert(a =~= a_front.push(a.last()));
        assert(b =~= b_front.push(b.last()));
    }
}

/// Puts an address in its place in a list that is in order, unless it is there already.
fn insert_sorted(list: &mut Vec<Address>, address: Address)
    requires
        strictly_sorted(old(list)@),
    ensures
        strictly_sorted(final(list)@),
        forall|x: Address| #[trigger]
            final(list)@.contains(x) <==> old(list)@.contains(x) || x == address,
{
    let mut i: usize = 0;
    while i < list.len() && list[i].before(&address)
        invariant
            i <= list@.len(),
            list@ == old(list)@,
            forall|j: int| 0 <= j < i ==> (#[trigger] list@[j]).rank() < address.rank(),
        decreases list@.len() - i,
    {
        i += 1;
    }
    let ghost before = list@;
    if i < list.len() && list[i].same(&address) {
        assert(before.contains(before[i as int]));
        return;
    }
    proof {
        if i < before.len() && before[i as int].rank() == address.rank() {
            rank_distinguishes(before[i as int], address);
        }
    }
    list.insert(i, address);
    proof {
        let after = list@;
        assert(after == before.insert(i as int, address));
        assert forall|j: int, k: int| 0 <= j < k < after.len() implies (#[trigger] after[j]).rank() < (
        #[trigger] after[k]).rank() by {
            if i < before.len() {
                assert(before[i as int].rank() > address.rank());
            }
            if j < i && k > i {
                assert(before[j].rank() < before[k - 1].rank());
            } else if j > i {
                assert(before[j - 1].rank() < before[k - 1].rank());
            } else if j == i {
                assert(k - 1 > i ==> before[i as int].rank() < before[k - 1].rank());
            }
        }
        assert forall|x: Address| #[trigger] after.contains(x) <==> before.contains(x) || x
            == address by {
            if after.contains(x) && x != address {
                let k = after.index_of(x);
                if k < i {
                    assert(before[k] == x);
                } else {
                    assert(before[k - 1] == x);
                }
            }
            if before.contains(x) {
                let k = before.index_of(x);
                if k < i {
                    assert(after[k] == x);
                } else {
                    assert(after[k + 1] == x);
                }
            }
            assert(after[i as int] == address);
        }
    }
}

/// Whether an address is an endpoint of one of the servers.
pub open spec fn is_endpoint(servers: Map<Address, Seq<Address>>, address: Address) -> bool {
    exists|server: Address| #[trigger]
        servers.contains_key(server) && servers[server].contains(address)
}

/// Whether a list of targets stands for addresses.
pub open spec fn stands_for(targets: Seq<Target>, addresses: Seq<Address>) -> bool {
    &&& targets.len() == addresses.len()
    &&& forall|i: int|
        0 <= i < targets.len() ==> (#[trigger] targets[i]).0 == Kind::Endpoint(addresses[i])
}

/// Whether targets are those at which clients can reach servers: all endpoints of all servers, in
/// their order, each of them once.
pub open spec fn client_targets(servers: Map<Address, Seq<Address>>, targets: Seq<Target>) -> bool {
    exists|addresses: Seq<Address>|
        {
            &&& #[trigger] stands_for(targets, addresses)
            &&& strictly_sorted(addresses)
            &&& forall|x: Address| #[trigger] addresses.contains(x) <==> is_endpoint(servers, x)
        }
}

/// The targets at which clients can reach servers are all that there is to know of their
/// endpoints: there is exactly one such list.
pub proof fn client_targets_are_unique(
    servers: Map<Address, Seq<Address>>,
    first: Seq<Target>,
    second: Seq<Target>,
)
    requires
        client_targets(servers, first),
        client_targets(servers, second),
    ensures
        first == second,
{
    let a = choose|addresses: Seq<Address>|
        {
            &&& #[trigger] stands_for(first, addresses)
            &&& strictly_sorted(addresses)
            &&& forall|x: Address| #[trigger] addresses.contains(x) <==> is_endpoint(servers, x)
        };
    let b = choose|addresses: Seq<Address>|
        {
            &&& #[trigger] stands_for(second, addresses)
            &&& strictly_sorted(addresses)
            &&& forall|x: Address| #[trigger] addresses.contains(x) <==> is_endpoint(servers, x)
        };
    assert forall|x: Address| #[trigger] a.contains(x) <==> b.contains(x) by {
        assert(a.contains(x) <==> is_endpoint(servers, x));
        assert(b.contains(x) <==> is_endpoint(servers, x));
    }
    strictly_sorted_list_is_unique(a, b);
    assert forall|i: int| 0 <= i < first.len() implies first[i] == second[i] by {
        assert(first[i].0 == Kind::Endpoint(a[i]));
        assert(second[i].0 == Kind::Endpoint(b[i]));
    }
    assert(first =~= second);
}

/// The targets at which clients can reach the servers: all their endpoints, in order, each of
/// them once.
pub fn endpoints_to_client_targets(servers: &EndpointsMap) -> (targets: Vec<Target>)
    ensures
        client_targets(servers@, targets@),
{
    proof {
        use_type_invariant(servers);
    }
    let ghost entries = servers.entries@;
    let mut addresses: Vec<Address> = Vec::new();
    let mut i: usize = 0;
    while i < servers.entries.len()
        invariant
            i <= servers.entries@.len(),
            entries == servers.entries@,
            strictly_sorted(addresses@),
            forall|x: Address| #[trigger]
                addresses@.contains(x) <==> exists|k: int|
                    0 <= k < i && (#[trigger] entries[k]).1@.contains(x),
        decreases servers.entries@.len() - i,
    {
        let list = &servers.entries[i].1;
        let ghost before = addresses@;
        let mut j: usize = 0;
        while j < list.len()
            invariant
                i < servers.entries@.len(),
                entries == servers.entries@,
                list@ == entries[i as int].1@,
                j <= list@.len(),
                strictly_sorted(addresses@),
                forall|x: Address| #[trigger]
                    addresses@.contains(x) <==> before.contains(x) || list@.take(
                        j as int,
                    ).contains(x),
            decreases list@.len() - j,
        {
            let ghost earlier = list@.take(j as int);
            insert_sorted(&mut addresses, list[j]);
            proof {
                let now = list@.take(j + 1);
                assert(now =~= earlier.push(list@[j as int]));
                assert forall|x: Address| #[trigger] now.contains(x) <==> earlier.contains(x) || x
                    == list@[j as int] by {
                    if now.contains(x) && x != list@[j as int] {
                        assert(earlier[now.index_of(x)] == x);
                    }
                    if earlier.contains(x) {
                        assert(now[earlier.index_of(x)] == x);
                    }
                    assert(now[j as int] == list@[j as int]);
                }
            }
            j += 1;
        }
        proof {
            assert(list@.take(list@.len() as int) =~= list@);
            assert forall|x: Address| #[trigger] addresses@.contains(x) <==> exists|k: int|
                0 <= k < i + 1 && (#[trigger] entries[k]).1@.contains(x) by {
                if addresses@.contains(x) {
                    if before.contains(x) {
                        let k = choose|k: int| 0 <= k < i && (#[trigger] entries[k]).1@.contains(x);
                        assert(entries[k].1@.contains(x));
                    } else {
                        assert(entries[i as int].1@.contains(x));
                    }
                }
                if exists|k: int| 0 <= k < i + 1 && (#[trigger] entries[k]).1@.contains(x) {
                    let k = choose|k: int| 0 <= k < i + 1 && (#[trigger] entries[k]).1@.contains(x);
                    if k < i {
                        assert(before.contains(x));
                    }
                }
            }
        }
        i += 1;
    }
    proof {
        assert forall|x: Address| #[trigger] addresses@.contains(x) <==> is_endpoint(
            servers@,
            x,
        ) by {
            if addresses@.contains(x) {
                let k = choose|k: int|
                    0 <= k < entries.len() && (#[trigger] entries[k]).1@.contains(x);
                let server = entries[k].0;
                assert(servers@.contains_key(server));
                let k2 = choose|i: int| 0 <= i < entries.len() && (#[trigger] entries[i]).0 == server;
                assert(k2 == k);
            }
            if is_endpoint(servers@, x) {
                let server = choose|server: Address| #[trigger]
                    servers@.contains_key(server) && servers@[server].contains(x);
                let k = choose|i: int| 0 <= i < entries.len() && (#[trigger] entries[i]).0 == server;
                assert(entries[k].1@.contains(x));
            }
        }
    }
    let mut targets: Vec<Target> = Vec::new();
    let mut i: usize = 0;
    while i < addresses.len()
        invariant
            i <= addresses@.len(),
            targets@.len() == i,
            forall|k: int|
                0 <= k < i ==> (#[trigger] targets@[k]).0 == Kind::Endpoint(addresses@[k]),
        decreases addresses@.len() - i,
    {
        targets.push(Target::from(addresses[i]));
        i += 1;
    }
    assert(stands_for(targets@, addresses@));
    targets
}

} // verus!
