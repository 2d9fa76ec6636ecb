//! Connections to signals.

use vstd::prelude::*;
use crate::formats::Reflect;
use crate::server::Poll;
use crate::value::{
    mismatched, Expected, FromValue, FromValueError, IntoValue, Kind, Type, TypeView, Value,
};

verus! {

/// The identifier of a connection to a signal.
#[derive(Clone, Copy, PartialEq, Eq, Structural, PartialOrd, Ord, Hash, Debug, Default)]
pub struct Link(pub u64);

impl Reflect for Link {
    open spec fn reflected() -> Option<TypeView> {
        Some(TypeView::UInt64)
    }

    fn ty() -> (ty: Option<Type>) {
        Some(Type::UInt64)
    }
}

impl IntoValue for Link {
    open spec fn valued(self, value: Value) -> bool {
        value == Value::UInt64(self.0)
    }

    fn into_value(self) -> (value: Value) {
        Value::UInt64(self.0)
    }
}

impl FromValue for Link {
    open spec fn converts(value: Value, result: Result<Link, FromValueError>) -> bool {
        match value {
            Value::UInt64(n) => result == Ok::<Link, FromValueError>(Link(n)),
            _ => mismatched(result, Expected::Kind(Kind::UInt64), value),
        }
    }

    fn from_value(value: Value) -> (result: Result<Link, FromValueError>) {
        match u64::from_value(value) {
            Ok(n) => Ok(Link(n)),
            Err(err) => Err(err),
        }
    }
}

/// The identifier of a connection that is converted to a value and back is the same one.
pub proof fn link_converted_back(link: Link, value: Value, result: Result<Link, FromValueError>)
    requires
        link.valued(value),
        Link::converts(value, result),
    ensures
        result == Ok::<Link, FromValueError>(link),
{
}

/// What polling a connection to a signal gives, and whether the task that polls is to be woken
/// right away. `polled` is what became of the next value of the stream of the connection: a
/// value, an error in place of values that were missed, or nothing where the stream has ended.
pub open spec fn next_value<T, E>(polled: Poll<Option<Result<T, E>>>) -> (Poll<Option<T>>, bool) {
    match polled {
        Poll::Pending => (Poll::Pending, false),
        Poll::Ready(None) => (Poll::Ready(None), false),
        Poll::Ready(Some(Ok(value))) => (Poll::Ready(Some(value)), false),
        Poll::Ready(Some(Err(_))) => (Poll::Pending, true),
    }
}

/// Polls a connection to a signal. Values that were missed are passed over: the task that polls
/// is woken, to poll again.
pub fn poll_next<T, E>(polled: Poll<Option<Result<T, E>>>) -> (next: (Poll<Option<T>>, bool))
    ensures
        next == next_value(polled),
{
    match polled {
        Poll::Pending => (Poll::Pending, false),
        Poll::Ready(None) => (Poll::Ready(None), false),
        Poll::Ready(Some(Ok(value))) => (Poll::Ready(Some(value)), false),
        Poll::Ready(Some(Err(_))) => (Poll::Pending, true),
    }
}

/// The values that a connection gives, of what its stream gives.
pub open spec fn values_given<T, E>(stream: Seq<Result<T, E>>) -> Seq<T>
    decreases stream.len(),
{
    if stream.len() == 0 {
        Seq::empty()
    } else {
        let given = values_given(stream.drop_last());
        match next_value(Poll::Ready(Some(stream.last()))) {
            (Poll::Ready(Some(value)), _) => given.push(value),
            _ => given,
        }
    }
}

/// A connection gives every value that its stream gives, in order, and nothing else.
pub proof fn connection_gives_all_values<T, E>(stream: Seq<Result<T, E>>)
    ensures
        values_given(stream) == stream.filter(|item: Result<T, E>| item is Ok).map_values(
            |item: Result<T, E>| item->Ok_0,
        ),
    decreases stream.len(),
{
    reveal(Seq::filter);
    let is_value = |item: Result<T, E>| item is Ok;
    let value_of = |item: Result<T, E>| item->Ok_0;
    if stream.len() > 0 {
        let front = stream.drop_last();
        connection_gives_all_values(front);
        assert(values_given(stream) =~= stream.filter(is_value).map_values(value_of));
    } else {
        assert(values_given(stream) =~= stream.filter(is_value).map_values(value_of));
    }
}

} // verus!
