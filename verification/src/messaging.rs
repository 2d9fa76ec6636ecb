//! The errors of the messaging layer.

use vstd::prelude::*;
use crate::error::BoxError;

verus! {

/// Why a request that was sent to a peer did not succeed.
#[derive(PartialEq, Eq, Debug)]
pub enum Error {
    /// The connection to the peer is lost.
    LinkLost(BoxError),
    /// The peer answered with an error.
    CallError(String),
    /// The call has been canceled.
    CallCanceled,
}

/// An error with which a handler answers a call.
pub trait CallError {
    /// Whether the call was canceled, in contracts.
    spec fn canceled(&self) -> bool;

    /// Whether no other request may follow, in contracts.
    spec fn fatal(&self) -> bool;

    /// The text of the error, in contracts.
    spec fn text(&self) -> Seq<char>;

    /// Tells whether the call was canceled.
    fn is_canceled(&self) -> (answer: bool)
        ensures
            answer == self.canceled(),
    ;

    /// Tells whether no other request may follow.
    fn is_fatal(&self) -> (answer: bool)
        ensures
            answer == self.fatal(),
    ;

    /// Renders the error.
    fn to_text(&self) -> (text: String)
        ensures
            text@ == self.text(),
    ;
}

} // verus!
