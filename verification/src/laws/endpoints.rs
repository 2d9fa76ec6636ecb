//! What addresses, targets and the endpoints of servers are.

use vstd::prelude::*;
use crate::address::{Address, IpAddr, SocketAddr, Ssl};
use crate::endpoints::{
    endpoints_source, endpoints_to_client_targets, interface_endpoints, replace_if_changed,
    update_address_endpoints, EndpointsMap, EndpointsSource,
};
use crate::target::{copy_targets, Kind, Target};

verus! {

/// The address zero of either version stands for every interface, and no other address does.
pub proof fn zero_is_unspecified(ip: &IpAddr, answer: bool)
    requires
        call_ensures(IpAddr::is_unspecified, (ip,), answer),
    ensures
        match *ip {
            IpAddr::V4(value) => answer <==> value == 0,
            IpAddr::V6(value) => answer <==> value == 0,
        },
{
}

/// The addresses from 127.0.0.0 to 127.255.255.255, and ::1, only reach the machine itself.
pub proof fn loopback_addresses(ip: &IpAddr, answer: bool)
    requires
        call_ensures(IpAddr::is_loopback, (ip,), answer),
    ensures
        match *ip {
            IpAddr::V4(value) => answer <==> 0x7f00_0000 <= value <= 0x7fff_ffff,
            IpAddr::V6(value) => answer <==> value == 1,
        },
{
}

/// An address only reaches the machine itself where that of its interface does, whatever its port
/// and security.
pub proof fn address_is_local_by_its_interface(address: &Address, answer: bool)
    requires
        call_ensures(Address::is_machine_local, (address,), answer),
    ensures
        match *address {
            Address::Tcp { address: SocketAddr::V4 { ip, .. }, .. } => answer <==> 0x7f00_0000 <= ip
                <= 0x7fff_ffff,
            Address::Tcp { address: SocketAddr::V6 { ip, .. }, .. } => answer <==> ip == 1,
        },
{
}

/// An interface and a port are what an address of both is made of, and what it gives back.
pub proof fn interface_and_port_are_kept(
    ip: IpAddr,
    port: u16,
    address: SocketAddr,
    ip_again: IpAddr,
    port_again: u16,
)
    requires
        call_ensures(SocketAddr::new, (ip, port), address),
        call_ensures(SocketAddr::ip, (&address,), ip_again),
        call_ensures(SocketAddr::port, (&address,), port_again),
    ensures
        ip_again == ip,
        port_again == port,
        address matches SocketAddr::V6 { flowinfo, scope_id, .. } ==> flowinfo == 0 && scope_id == 0,
{
}

/// The interface and the port of any address are those that it holds.
pub proof fn interface_and_port_of_an_address(address: &SocketAddr, ip: IpAddr, port: u16)
    requires
        call_ensures(SocketAddr::ip, (address,), ip),
        call_ensures(SocketAddr::port, (address,), port),
    ensures
        match *address {
            SocketAddr::V4 { ip: value, port: p } => ip == IpAddr::V4(value) && port == p,
            SocketAddr::V6 { ip: value, port: p, .. } => ip == IpAddr::V6(value) && port == p,
        },
{
}

/// Whether an address of an interface and a port stands before another one: version four first,
/// then by the interface, the port, the flow information and the scope, each by its number.
pub open spec fn stands_before(a: SocketAddr, b: SocketAddr) -> bool {
    match (a, b) {
        (SocketAddr::V4 { ip: x, port: p }, SocketAddr::V4 { ip: y, port: q }) => x < y || (x == y && p
            < q),
        (SocketAddr::V4 { .. }, SocketAddr::V6 { .. }) => true,
        (SocketAddr::V6 { .. }, SocketAddr::V4 { .. }) => false,
        (
            SocketAddr::V6 { ip: x, port: p, flowinfo: f, scope_id: s },
            SocketAddr::V6 { ip: y, port: q, flowinfo: g, scope_id: t },
        ) => x < y || (x == y && (p < q || (p == q && (f < g || (f == g && s < t))))),
    }
}

/// Whether a security stands before another one: none, of the server alone, of both sides.
pub open spec fn secured_less(a: Option<Ssl>, b: Option<Ssl>) -> bool {
    match (a, b) {
        (None, Some(_)) => true,
        (Some(Ssl::Simple), Some(Ssl::Mutual)) => true,
        _ => false,
    }
}

/// Whether an address stands before another one: by interface and port, then by security.
pub open spec fn address_stands_before(a: Address, b: Address) -> bool {
    match (a, b) {
        (Address::Tcp { address: x, ssl: s }, Address::Tcp { address: y, ssl: t }) => stands_before(
            x,
            y,
        ) || (x == y && secured_less(s, t)),
    }
}

/// Addresses of interfaces and ports are compared part by part.
pub proof fn order_of_socket_addresses(a: &SocketAddr, b: &SocketAddr, answer: bool)
    requires
        call_ensures(SocketAddr::before, (a, b), answer),
    ensures
        answer == stands_before(*a, *b),
{
}

/// Addresses are compared by interface and port, then by security.
pub proof fn order_of_addresses(a: &Address, b: &Address, answer: bool)
    requires
        call_ensures(Address::before, (a, b), answer),
    ensures
        answer == address_stands_before(*a, *b),
{
}

/// Two addresses are the same where all their parts are.
pub proof fn same_addresses_have_the_same_parts(a: &Address, b: &Address, answer: bool)
    requires
        call_ensures(Address::same, (a, b), answer),
    ensures
        match (*a, *b) {
            (Address::Tcp { address: x, ssl: s }, Address::Tcp { address: y, ssl: t }) => answer <==> x
                == y && s == t,
        },
{
}

/// A target is of a service or an endpoint, as it was made, and tells which.
pub proof fn targets_tell_what_they_stand_for(
    name: &str,
    of_service: Target,
    address: Address,
    of_address: Target,
    service_relative: bool,
    address_relative: bool,
)
    requires
        call_ensures(Target::service, (name,), of_service),
        call_ensures(<Target as From<Address>>::from, (address,), of_address),
        call_ensures(Target::is_service_relative, (&of_service,), service_relative),
        call_ensures(Target::is_service_relative, (&of_address,), address_relative),
    ensures
        of_service.0 matches Kind::Service(n) && n@ == name@,
        of_address.0 == Kind::Endpoint(address),
        service_relative,
        !address_relative,
{
}

/// A target only reaches the machine itself where it is an endpoint that does.
pub proof fn target_is_local_by_its_address(target: &Target, answer: bool)
    requires
        call_ensures(Target::is_machine_local, (target,), answer),
    ensures
        match target.0 {
            Kind::Service(_) => !answer,
            Kind::Endpoint(Address::Tcp { address: SocketAddr::V4 { ip, .. }, .. }) => answer
                <==> 0x7f00_0000 <= ip <= 0x7fff_ffff,
            Kind::Endpoint(Address::Tcp { address: SocketAddr::V6 { ip, .. }, .. }) => answer <==> ip
                == 1,
        },
{
}

/// What a target stands for is what is told of it, and a copy of a list of targets has the same
/// ones in the same places.
pub proof fn targets_are_copied_one_by_one(
    target: &Target,
    kind: &Kind,
    targets: &Vec<Target>,
    copies: Vec<Target>,
)
    requires
        call_ensures(Target::kind, (target,), kind),
        call_ensures(copy_targets, (targets,), copies),
    ensures
        *kind == target.0,
        copies@.len() == targets@.len(),
        forall|i: int| 0 <= i < targets@.len() ==> #[trigger] copies@[i] == targets@[i],
{
}

/// Whether an address is the one of an interface with a port and a security.
pub open spec fn is_interface_address(
    endpoint: Address,
    interface: IpAddr,
    port: u16,
    ssl: Option<Ssl>,
) -> bool {
    match endpoint {
        Address::Tcp { address, ssl: security } => {
            &&& security == ssl
            &&& match (interface, address) {
                (IpAddr::V4(value), SocketAddr::V4 { ip, port: p }) => ip == value && p == port,
                (IpAddr::V6(value), SocketAddr::V6 { ip, port: p, flowinfo, scope_id }) => ip == value
                    && p == port && flowinfo == 0 && scope_id == 0,
                _ => false,
            }
        },
    }
}

/// Endpoints at interfaces are one for each interface, at its place, with the port and the
/// security that all of them share.
pub proof fn one_endpoint_for_each_interface(
    interfaces: &Vec<IpAddr>,
    port: u16,
    ssl: Option<Ssl>,
    endpoints: Vec<Address>,
)
    requires
        call_ensures(interface_endpoints, (interfaces, port, ssl), endpoints),
    ensures
        endpoints@.len() == interfaces@.len(),
        forall|i: int|
            0 <= i < endpoints@.len() ==> is_interface_address(
                #[trigger] endpoints@[i],
                interfaces@[i],
                port,
                ssl,
            ),
{
}

/// A server that is bound to the address zero has its endpoints from the interfaces, with its own
/// port and security; any other server has none but its own address.
pub proof fn unspecified_servers_have_many_endpoints(local: Address, source: EndpointsSource)
    requires
        call_ensures(endpoints_source, (local,), source),
    ensures
        match local {
            Address::Tcp { address: SocketAddr::V4 { ip, port }, ssl } => if ip == 0 {
                source == (EndpointsSource::Interfaces { port, ssl })
            } else {
                source == EndpointsSource::Own(local)
            },
            Address::Tcp { address: SocketAddr::V6 { ip, port, .. }, ssl } => if ip == 0 {
                source == (EndpointsSource::Interfaces { port, ssl })
            } else {
                source == EndpointsSource::Own(local)
            },
        },
{
}

/// Endpoints are replaced by the new ones, and a change is told exactly where some endpoint, or how
/// many there are, differs.
pub proof fn endpoints_are_replaced(
    endpoints: &mut Vec<Address>,
    new_endpoints: Vec<Address>,
    changed: bool,
)
    requires
        call_ensures(replace_if_changed, (endpoints, new_endpoints), changed),
    ensures
        final(endpoints)@.len() == new_endpoints@.len(),
        forall|i: int|
            0 <= i < new_endpoints@.len() ==> #[trigger] final(endpoints)@[i] == new_endpoints@[i],
        !changed <==> old(endpoints)@.len() == new_endpoints@.len() && forall|i: int|
            0 <= i < new_endpoints@.len() ==> #[trigger] old(endpoints)@[i] == new_endpoints@[i],
{
    if old(endpoints)@.len() == new_endpoints@.len() && forall|i: int|
        0 <= i < new_endpoints@.len() ==> #[trigger] old(endpoints)@[i] == new_endpoints@[i] {
        assert(old(endpoints)@ =~= new_endpoints@);
    }
}

/// The endpoints of a server that is bound to the address zero become one for each interface, at
/// its place, with the port and the security of the address that the server is bound to; those who
/// watch are told exactly where that changes them.
pub proof fn endpoints_of_unspecified_server(
    local: Address,
    interfaces: &Vec<IpAddr>,
    watched: &mut (Address, Vec<Address>),
    told: bool,
)
    requires
        call_ensures(update_address_endpoints, (local, interfaces, watched), told),
        match local {
            Address::Tcp { address: SocketAddr::V4 { ip, .. }, .. } => ip == 0,
            Address::Tcp { address: SocketAddr::V6 { ip, .. }, .. } => ip == 0,
        },
    ensures
        final(watched).0 == old(watched).0,
        final(watched).1@.len() == interfaces@.len(),
        forall|i: int|
            0 <= i < interfaces@.len() ==> is_interface_address(
                #[trigger] final(watched).1@[i],
                interfaces@[i],
                match local {
                    Address::Tcp { address: SocketAddr::V4 { port, .. }, .. } => port,
                    Address::Tcp { address: SocketAddr::V6 { port, .. }, .. } => port,
                },
                match local {
                    Address::Tcp { ssl, .. } => ssl,
                },
            ),
        told <==> old(watched).1@ != final(watched).1@,
{
}

/// The only endpoint of a server that is bound to any other address is that address, and those who
/// watch are told.
pub proof fn endpoint_of_bound_server(
    local: Address,
    interfaces: &Vec<IpAddr>,
    watched: &mut (Address, Vec<Address>),
    told: bool,
)
    requires
        call_ensures(update_address_endpoints, (local, interfaces, watched), told),
        match local {
            Address::Tcp { address: SocketAddr::V4 { ip, .. }, .. } => ip != 0,
            Address::Tcp { address: SocketAddr::V6 { ip, .. }, .. } => ip != 0,
        },
    ensures
        final(watched).0 == old(watched).0,
        final(watched).1@.len() == 1,
        final(watched).1@[0] == local,
        told,
{
}

/// A map without servers knows none, and noting the endpoints of one changes what is known of that
/// one alone.
pub proof fn noting_changes_one_server(
    fresh: EndpointsMap,
    map: &mut EndpointsMap,
    server: Address,
    endpoints: Vec<Address>,
)
    requires
        call_ensures(EndpointsMap::new, (), fresh),
        call_ensures(EndpointsMap::insert, (map, server, endpoints), ()),
    ensures
        forall|other: Address| !(#[trigger] fresh@.contains_key(other)),
        final(map)@.contains_key(server) && final(map)@[server] == endpoints@,
        forall|other: Address|
            other != server ==> (#[trigger] final(map)@.contains_key(other) <==> old(map)@.contains_key(other)),
        forall|other: Address|
            other != server && old(map)@.contains_key(other) ==> #[trigger] final(map)@[other]
                == old(map)@[other],
{
}

/// The targets for clients are endpoints of the servers, all of them, in order, each once.
pub proof fn client_targets_are_the_endpoints(servers: &EndpointsMap, targets: Vec<Target>)
    requires
        call_ensures(endpoints_to_client_targets, (servers,), targets),
    ensures
        forall|i: int|
            0 <= i < targets@.len() ==> ((#[trigger] targets@[i]).0 matches Kind::Endpoint(address)
                && exists|server: Address| #[trigger]
                servers@.contains_key(server) && servers@[server].contains(address)),
        forall|server: Address, k: int|
            servers@.contains_key(server) && 0 <= k < servers@[server].len() ==> exists|i: int|
                0 <= i < targets@.len() && (#[trigger] targets@[i]).0 == Kind::Endpoint(
                    #[trigger] servers@[server][k],
                ),
        forall|i: int, j: int|
            0 <= i < j < targets@.len() ==> address_stands_before(
                (#[trigger] targets@[i]).0->Endpoint_0,
                (#[trigger] targets@[j]).0->Endpoint_0,
            ),
{
    let addresses = choose|addresses: Seq<Address>|
        {
            &&& #[trigger] crate::endpoints::stands_for(targets@, addresses)
            &&& crate::endpoints::strictly_sorted(addresses)
            &&& forall|x: Address| #[trigger]
                addresses.contains(x) <==> crate::endpoints::is_endpoint(servers@, x)
        };
    assert forall|i: int| 0 <= i < targets@.len() implies ((#[trigger] targets@[i]).0 matches Kind::Endpoint(
        address,
    ) && exists|server: Address| #[trigger]
        servers@.contains_key(server) && servers@[server].contains(address)) by {
        assert(addresses.contains(addresses[i]));
    }
    assert forall|server: Address, k: int|
        servers@.contains_key(server) && 0 <= k < servers@[server].len() implies exists|i: int|
        0 <= i < targets@.len() && (#[trigger] targets@[i]).0 == Kind::Endpoint(
            #[trigger] servers@[server][k],
        ) by {
        let x = servers@[server][k];
        assert(servers@[server].contains(x));
        assert(crate::endpoints::is_endpoint(servers@, x));
        assert(addresses.contains(x));
        let i = addresses.index_of(x);
        assert(targets@[i].0 == Kind::Endpoint(x));
    }
    assert forall|i: int, j: int| 0 <= i < j < targets@.len() implies address_stands_before(
        (#[trigger] targets@[i]).0->Endpoint_0,
        (#[trigger] targets@[j]).0->Endpoint_0,
    ) by {
        assert(addresses[i].rank() < addresses[j].rank());
        rank_orders(addresses[i], addresses[j]);
    }
}

/// The number of an address orders as its parts do.
proof fn rank_orders(a: Address, b: Address)
    requires
        a.rank() < b.rank(),
    ensures
        address_stands_before(a, b),
{
}

/// Whatever endpoints are noted of a server are targets for clients, once its map is asked.
pub proof fn noted_endpoints_are_client_targets(
    map: &mut EndpointsMap,
    server: Address,
    endpoints: Vec<Address>,
    asked: &EndpointsMap,
    targets: Vec<Target>,
)
    requires
        call_ensures(EndpointsMap::insert, (map, server, endpoints), ()),
        asked@ == final(map)@,
        call_ensures(endpoints_to_client_targets, (asked,), targets),
    ensures
        forall|k: int|
            0 <= k < endpoints@.len() ==> exists|i: int|
                0 <= i < targets@.len() && (#[trigger] targets@[i]).0 == Kind::Endpoint(
                    #[trigger] endpoints@[k],
                ),
{
    client_targets_are_the_endpoints(asked, targets);
    assert forall|k: int| 0 <= k < endpoints@.len() implies exists|i: int|
        0 <= i < targets@.len() && (#[trigger] targets@[i]).0 == Kind::Endpoint(
            #[trigger] endpoints@[k],
        ) by {
        assert(asked@.contains_key(server));
        assert(asked@[server][k] == endpoints@[k]);
    }
}

} // verus!
