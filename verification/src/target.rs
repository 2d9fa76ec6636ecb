//! Targets of sessions: the services and the endpoints that a session may be opened to.

use vstd::prelude::*;
use crate::address::Address;

verus! {

/// What a target stands for.
#[derive(PartialEq, Eq, PartialOrd, Ord, Hash, Debug)]
pub enum Kind {
    /// The session that is open to the service of this name.
    Service(String),
    /// A session over a connection to this address.
    Endpoint(Address),
}

/// A target of a session.
#[derive(PartialEq, Eq, PartialOrd, Ord, Hash, Debug)]
pub struct Target(pub Kind);

impl Target {
    /// The target of the service of a name.
    pub fn service(name: &str) -> (target: Target)
        ensures
            target.0 matches Kind::Service(n) && n@ == name@,
    {
        Target(Kind::Service(name.to_owned()))
    }

    /// What the target stands for.
    pub fn kind(&self) -> (kind: &Kind)
        ensures
            *kind == self.0,
    {
        &self.0
    }

    /// Whether the target stands for a service, in contracts.
    pub open spec fn service_relative(self) -> bool {
        self.0 is Service
    }

    /// Whether the target only reaches the machine itself, in contracts.
    pub open spec fn machine_local(self) -> bool {
        match self.0 {
            Kind::Service(_) => false,
            Kind::Endpoint(address) => address.spec_ip().loopback(),
        }
    }

    /// Tells whether the target stands for a service.
    pub fn is_service_relative(&self) -> (answer: bool)
        ensures
            answer == self.service_relative(),
    {
        match &self.0 {
            Kind::Service(_) => true,
            Kind::Endpoint(_) => false,
        }
    }

    /// Tells whether the target only reaches the machine itself.
    pub fn is_machine_local(&self) -> (answer: bool)
        ensures
            answer == self.machine_local(),
    {
        match &self.0 {
            Kind::Service(_) => false,
            Kind::Endpoint(address) => address.is_machine_local(),
        }
    }
}

impl From<Address> for Target {
    fn from(address: Address) -> (target: Target) {
        Target(Kind::Endpoint(address))
    }
}

impl vstd::std_specs::convert::FromSpecImpl<Address> for Target {
    open spec fn obeys_from_spec() -> bool {
        true
    }

    open spec fn from_spec(address: Address) -> Target {
        Target(Kind::Endpoint(address))
    }
}

impl Clone for Target {
    fn clone(&self) -> (copy: Target)
        ensures
            copy == *self,
    {
        match &self.0 {
            Kind::Service(name) => Target(Kind::Service(name.clone())),
            Kind::Endpoint(address) => Target(Kind::Endpoint(*address)),
        }
    }
}

/// A copy of a list of targets.
pub fn copy_targets(targets: &Vec<Target>) -> (copy: Vec<Target>)
    ensures
        copy@ == targets@,
{
    let copy = targets.clone();
    assert(copy@ =~= targets@);
    copy
}

} // verus!
