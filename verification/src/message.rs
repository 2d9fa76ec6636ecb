//! Messages and the addresses of the actions that they are about.

use bytes::Bytes;
use vstd::prelude::*;
use crate::meta::ActionId;
use crate::object;
use crate::service;
use crate::text::{decimal, decimal_text};

verus! {

/// The identifier of a request and of the messages that answer it.
#[derive(Clone, Copy, PartialEq, Eq, Structural, PartialOrd, Ord, Hash, Debug, Default)]
pub struct Id(pub u32);

/// The address of an action: its service, its object and the action itself.
#[derive(Clone, Copy, PartialEq, Eq, Structural, PartialOrd, Ord, Hash, Debug, Default)]
pub struct Address(pub service::Id, pub object::Id, pub ActionId);

impl Address {
    /// The service of the action.
    pub fn service(&self) -> (id: service::Id)
        ensures
            id == self.0,
    {
        self.0
    }

    /// The object of the action.
    pub fn object(&self) -> (id: object::Id)
        ensures
            id == self.1,
    {
        self.1
    }

    /// The action itself.
    pub fn action(&self) -> (id: ActionId)
        ensures
            id == self.2,
    {
        self.2
    }

    /// The text of an address: its three identifiers, separated by dots.
    pub open spec fn text(self) -> Seq<char> {
        decimal(self.0.0 as nat) + "."@ + decimal(self.1.0 as nat) + "."@ + decimal(self.2.0 as nat)
    }

    /// Renders the address.
    pub fn to_text(&self) -> (text: String)
        ensures
            text@ == self.text(),
    {
        let mut text = decimal_text(self.0.0);
        text.append(".");
        text.append(decimal_text(self.1.0).as_str());
        text.append(".");
        text.append(decimal_text(self.2.0).as_str());
        text
    }
}

/// The kinds of requests that a peer may send.
#[derive(Clone, Copy, PartialEq, Eq, Structural, PartialOrd, Ord, Hash, Debug)]
pub enum Type {
    Call,
    Post,
    Event,
}

impl Type {
    /// The name of the kind of request.
    pub open spec fn text(self) -> Seq<char> {
        match self {
            Type::Call => "call"@,
            Type::Post => "post"@,
            Type::Event => "event"@,
        }
    }

    /// Renders the kind of request.
    pub fn to_text(&self) -> (text: &'static str)
        ensures
            text@ == self.text(),
    {
        match self {
            Type::Call => "call",
            Type::Post => "post",
            Type::Event => "event",
        }
    }
}

/// A message of the calling protocol: a call and the three ways in which it is answered.
#[derive(PartialEq, Eq, Debug)]
pub enum Message {
    Call { id: Id, address: Address, payload: Bytes },
    Reply { id: Id, address: Address, payload: Bytes },
    Error { id: Id, address: Address, error: String },
    Canceled { id: Id, address: Address },
}

impl Message {
    /// The identifier of the request that the message belongs to.
    pub open spec fn spec_id(self) -> Id {
        match self {
            Message::Call { id, .. } => id,
            Message::Reply { id, .. } => id,
            Message::Error { id, .. } => id,
            Message::Canceled { id, .. } => id,
        }
    }

    /// The address of the action that the message is about.
    pub open spec fn spec_address(self) -> Address {
        match self {
            Message::Call { address, .. } => address,
            Message::Reply { address, .. } => address,
            Message::Error { address, .. } => address,
            Message::Canceled { address, .. } => address,
        }
    }
}

} // verus!
