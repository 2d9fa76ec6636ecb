//! Addresses that nodes bind to and connect to.

use vstd::prelude::*;

verus! {

/// The address of a network interface, by its numerical value.
#[derive(Clone, Copy, PartialEq, Eq, Structural, PartialOrd, Ord, Hash, Debug)]
pub enum IpAddr {
    V4(u32),
    V6(u128),
}

impl IpAddr {
    /// Whether the address stands for every interface of the host.
    pub open spec fn unspecified(self) -> bool {
        self == IpAddr::V4(0) || self == IpAddr::V6(0)
    }

    /// Whether the address only reaches the machine itself: 127.0.0.0/8 or ::1.
    pub open spec fn loopback(self) -> bool {
        match self {
            IpAddr::V4(value) => value / 0x100_0000 == 127,
            IpAddr::V6(value) => value == 1,
        }
    }

    /// Tells whether the address stands for every interface of the host.
    pub fn is_unspecified(&self) -> (answer: bool)
        ensures
            answer == self.unspecified(),
    {
        match *self {
            IpAddr::V4(value) => value == 0,
            IpAddr::V6(value) => value == 0,
        }
    }

    /// Tells whether the address only reaches the machine itself.
    pub fn is_loopback(&self) -> (answer: bool)
        ensures
            answer == self.loopback(),
    {
        match *self {
            IpAddr::V4(value) => value / 0x100_0000 == 127,
            IpAddr::V6(value) => value == 1,
        }
    }
}

/// An address of a network interface with a port. An address of version six also carries flow
/// information and the identifier of a scope.
#[derive(Clone, Copy, PartialEq, Eq, Structural, PartialOrd, Ord, Hash, Debug)]
#[allow(inconsistent_fields)]
pub enum SocketAddr {
    V4 { ip: u32, port: u16 },
    V6 { ip: u128, port: u16, flowinfo: u32, scope_id: u32 },
}

impl SocketAddr {
    /// The address of an interface with a port, without flow information and scope, in contracts.
    pub open spec fn spec_new(ip: IpAddr, port: u16) -> SocketAddr {
        match ip {
            IpAddr::V4(ip) => SocketAddr::V4 { ip, port },
            IpAddr::V6(ip) => SocketAddr::V6 { ip, port, flowinfo: 0, scope_id: 0 },
        }
    }

    /// The address of an interface with a port, without flow information and scope.
    pub fn new(ip: IpAddr, port: u16) -> (address: SocketAddr)
        ensures
            address == SocketAddr::spec_new(ip, port),
            address.spec_ip() == ip,
            address.spec_port() == port,
    {
        match ip {
            IpAddr::V4(ip) => SocketAddr::V4 { ip, port },
            IpAddr::V6(ip) => SocketAddr::V6 { ip, port, flowinfo: 0, scope_id: 0 },
        }
    }

    /// The address of the interface, in contracts.
    pub open spec fn spec_ip(self) -> IpAddr {
        match self {
            SocketAddr::V4 { ip, .. } => IpAddr::V4(ip),
            SocketAddr::V6 { ip, .. } => IpAddr::V6(ip),
        }
    }

    /// The address of the interface.
    pub fn ip(&self) -> (ip: IpAddr)
        ensures
            ip == self.spec_ip(),
    {
        match *self {
            SocketAddr::V4 { ip, .. } => IpAddr::V4(ip),
            SocketAddr::V6 { ip, .. } => IpAddr::V6(ip),
        }
    }

    /// The port, in contracts.
    pub open spec fn spec_port(self) -> u16 {
        match self {
            SocketAddr::V4 { port, .. } => port,
            SocketAddr::V6 { port, .. } => port,
        }
    }

    /// The port.
    pub fn port(&self) -> (port: u16)
        ensures
            port == self.spec_port(),
    {
        match *self {
            SocketAddr::V4 { port, .. } => port,
            SocketAddr::V6 { port, .. } => port,
        }
    }

    /// The place of an address in the order of addresses: by version, then value of the interface
    /// address, then port, then flow information, then scope.
    pub open spec fn rank(self) -> int {
        let (ip, flowinfo, scope_id) = match self {
            SocketAddr::V4 { ip, .. } => (ip as int, 0, 0),
            SocketAddr::V6 { ip, flowinfo, scope_id, .. } => (
                0x1_0000_0000_0000_0000_0000_0000_0000_0000 + ip,
                flowinfo as int,
                scope_id as int,
            ),
        };
        ((ip * 0x1_0000 + self.spec_port()) * 0x1_0000_0000 + flowinfo) * 0x1_0000_0000 + scope_id
    }

    /// Tells whether an address comes before another one.
    pub fn before(&self, other: &SocketAddr) -> (answer: bool)
        ensures
            answer == (self.rank() < other.rank()),
    {
        match (*self, *other) {
            (SocketAddr::V4 { ip: a, port: p }, SocketAddr::V4 { ip: b, port: q }) => if a != b {
                a < b
            } else {
                p < q
            },
            (SocketAddr::V4 { .. }, SocketAddr::V6 { .. }) => true,
            (SocketAddr::V6 { .. }, SocketAddr::V4 { .. }) => false,
            (
                SocketAddr::V6 { ip: a, port: p, flowinfo: f, scope_id: s },
                SocketAddr::V6 { ip: b, port: q, flowinfo: g, scope_id: t },
            ) => if a != b {
                a < b
            } else if p != q {
                p < q
            } else if f != g {
                f < g
            } else {
                s < t
            },
        }
    }
}

/// How a connection is secured: with a certificate of the server alone or of both sides.
#[derive(Clone, Copy, PartialEq, Eq, Structural, PartialOrd, Ord, Hash, Debug)]
pub enum Ssl {
    Simple,
    Mutual,
}

/// An address that a node binds to or connects to.
#[derive(Clone, Copy, PartialEq, Eq, Structural, PartialOrd, Ord, Hash, Debug)]
pub enum Address {
    Tcp { address: SocketAddr, ssl: Option<Ssl> },
}

impl Address {
    /// The place of an address in the order of addresses: by the address of the interface and the
    /// port, then security.
    pub open spec fn rank(self) -> int {
        match self {
            Address::Tcp { address, ssl } => {
                let security: int = match ssl {
                    None => 0,
                    Some(Ssl::Simple) => 1,
                    Some(Ssl::Mutual) => 2,
                };
                address.rank() * 4 + security
            },
        }
    }

    /// The address of the interface.
    pub open spec fn spec_ip(self) -> IpAddr {
        match self {
            Address::Tcp { address, .. } => address.spec_ip(),
        }
    }

    /// Tells whether two addresses are the same.
    pub fn same(&self, other: &Address) -> (answer: bool)
        ensures
            answer == (*self == *other),
    {
        match (*self, *other) {
            (Address::Tcp { address: a, ssl: s }, Address::Tcp { address: b, ssl: t }) => {
                let same_ssl = match (s, t) {
                    (None, None) => true,
                    (Some(Ssl::Simple), Some(Ssl::Simple)) => true,
                    (Some(Ssl::Mutual), Some(Ssl::Mutual)) => true,
                    _ => false,
                };
                a == b && same_ssl
            },
        }
    }

    /// Tells whether an address comes before another one.
    pub fn before(&self, other: &Address) -> (answer: bool)
        ensures
            answer == (self.rank() < other.rank()),
    {
        match (*self, *other) {
            (Address::Tcp { address: a, ssl: s }, Address::Tcp { address: b, ssl: t }) => {
                let a_security: u8 = match s {
                    None => 0,
                    Some(Ssl::Simple) => 1,
                    Some(Ssl::Mutual) => 2,
                };
                let b_security: u8 = match t {
                    None => 0,
                    Some(Ssl::Simple) => 1,
                    Some(Ssl::Mutual) => 2,
                };
                if a != b {
                    proof {
                        socket_rank_distinguishes(a, b);
                    }
                    a.before(&b)
                } else {
                    a_security < b_security
                }
            },
        }
    }

    /// Tells whether the address only reaches the machine itself.
    pub fn is_machine_local(&self) -> (answer: bool)
        ensures
            answer == self.spec_ip().loopback(),
    {
        match *self {
            Address::Tcp { address, .. } => address.ip().is_loopback(),
        }
    }
}

/// Two different addresses of interfaces have different places in the order of addresses.
proof fn socket_rank_distinguishes(a: SocketAddr, b: SocketAddr)
    ensures
        a.rank() == b.rank() ==> a == b,
{
}

/// Two different addresses have different places in the order of addresses.
pub proof fn rank_distinguishes(a: Address, b: Address)
    requires
        a.rank() == b.rank(),
    ensures
        a == b,
{
    match (a, b) {
        (Address::Tcp { address: x, .. }, Address::Tcp { address: y, .. }) => {
            socket_rank_distinguishes(x, y);
        },
    }
}

} // verus!
