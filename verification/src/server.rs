//! The calls that a server is answering.

use bytes::Bytes;
use vstd::prelude::*;
use crate::message::{Address, Id, Message};
use crate::messaging::CallError;

verus! {

/// What became of something that was polled.
#[derive(PartialEq, Eq, Debug)]
pub enum Poll<T> {
    /// It gave a result.
    Ready(T),
    /// It is not over yet.
    Pending,
}

/// Whether other messages are dispatched after an answer.
#[derive(Clone, Copy, PartialEq, Eq, Structural, Debug)]
pub enum DispatchFlow {
    Continue,
    Stop,
}

/// The state of the answer to a call. `F` stands for the work of the handler, `W` for what
/// wakes the task that polls it.
#[derive(Debug)]
pub enum CallFutureState<F, W> {
    /// The handler is at work.
    Running { inner: F, waker: Option<W> },
    /// The call was canceled, and that is not answered yet.
    Canceled,
    /// The call was answered.
    Terminated,
}

/// The answer to a call, in the making.
#[derive(Debug)]
pub struct CallFuture<F, W> {
    pub id: Id,
    pub address: Address,
    pub state: CallFutureState<F, W>,
}

/// Whether a message and what follows it answer a call with the outcome of its handler.
pub open spec fn answers<E: CallError>(
    id: Id,
    address: Address,
    outcome: Result<Bytes, E>,
    answer: (Message, DispatchFlow),
) -> bool {
    match outcome {
        Ok(payload) => answer == (Message::Reply { id, address, payload }, DispatchFlow::Continue),
        Err(err) => if err.canceled() {
            answer == (Message::Canceled { id, address }, DispatchFlow::Continue)
        } else {
            &&& answer.0 matches Message::Error { id: i, address: a, error } && i == id && a
                == address && error@ == err.text()
            &&& answer.1 == (if err.fatal() {
                DispatchFlow::Stop
            } else {
                DispatchFlow::Continue
            })
        },
    }
}

/// The message that answers a call with the outcome of its handler, and what follows it.
pub fn answer<E: CallError>(id: Id, address: Address, outcome: Result<Bytes, E>) -> (answer: (
    Message,
    DispatchFlow,
))
    ensures
        answers(id, address, outcome, answer),
{
    match outcome {
        Ok(reply) => (Message::Reply { id, address, payload: reply }, DispatchFlow::Continue),
        Err(error) => {
            if error.is_canceled() {
                (Message::Canceled { id, address }, DispatchFlow::Continue)
            } else {
                let flow = if error.is_fatal() {
                    DispatchFlow::Stop
                } else {
                    DispatchFlow::Continue
                };
                (Message::Error { id, address, error: error.to_text() }, flow)
            }
        },
    }
}

/// What canceling does to a call, and what it gives to wake.
pub open spec fn canceling<F, W>(
    before: CallFuture<F, W>,
    after: CallFuture<F, W>,
    woken: Option<W>,
) -> bool {
    &&& after.id == before.id
    &&& after.address == before.address
    &&& match before.state {
        CallFutureState::Running { waker, .. } => after.state is Canceled && woken == waker,
        _ => after.state == before.state && woken is None,
    }
}

/// What polling does to a call and gives as its answer. `inner` is what became of the work of
/// the handler.
pub open spec fn polling<F, W, E: CallError>(
    before: CallFuture<F, W>,
    after: CallFuture<F, W>,
    waker: W,
    inner: Poll<Result<Bytes, E>>,
    answer: Poll<(Message, DispatchFlow)>,
) -> bool {
    &&& after.id == before.id
    &&& after.address == before.address
    &&& match before.state {
        CallFutureState::Running { inner: work, .. } => match inner {
            Poll::Pending => {
                &&& answer is Pending
                &&& after.state == (CallFutureState::<F, W>::Running {
                    inner: work,
                    waker: Some(waker),
                })
            },
            Poll::Ready(outcome) => {
                &&& answer matches Poll::Ready(given) && answers(
                    before.id,
                    before.address,
                    outcome,
                    given,
                )
                &&& after.state is Terminated
            },
        },
        CallFutureState::Canceled => {
            &&& answer == Poll::Ready(
                (
                    Message::Canceled { id: before.id, address: before.address },
                    DispatchFlow::Continue,
                ),
            )
            &&& after.state is Terminated
        },
        CallFutureState::Terminated => answer is Pending && after.state is Terminated,
    }
}

impl<F, W> CallFuture<F, W> {
    /// Starts to answer a call with the work of its handler.
    pub fn new(id: Id, address: Address, inner: F) -> (call: CallFuture<F, W>)
        ensures
            call.id == id,
            call.address == address,
            call.state == (CallFutureState::<F, W>::Running { inner, waker: None }),
    {
        CallFuture { id, address, state: CallFutureState::Running { inner, waker: None } }
    }

    /// Cancels the call, unless it is canceled or answered already. Gives what wakes the task
    /// that polls it, where one did.
    pub fn cancel(&mut self) -> (woken: Option<W>)
        ensures
            canceling(*old(self), *final(self), woken),
    {
        let mut state = CallFutureState::Canceled;
        core::mem::swap(&mut state, &mut self.state);
        match state {
            CallFutureState::Running { waker, .. } => waker,
            state => {
                self.state = state;
                None
            },
        }
    }

    /// Cancels the call if it is the one with the given identifier, and leaves it alone
    /// otherwise.
    pub fn cancel_if(&mut self, id: &Id) -> (woken: Option<W>)
        ensures
            old(self).id == *id ==> canceling(*old(self), *final(self), woken),
            old(self).id != *id ==> *final(self) == *old(self) && woken is None,
    {
        if self.id == *id {
            self.cancel()
        } else {
            None
        }
    }

    /// The work of the handler, as long as it is wanted.
    pub fn inner_mut(&mut self) -> (inner: Option<&mut F>)
        ensures
            match old(self).state {
                CallFutureState::Running { inner: f, waker } => inner is Some && *inner->Some_0 == f
                    && *final(self) == (CallFuture::<F, W> {
                    state: CallFutureState::Running { inner: *final(inner->Some_0), waker },
                    ..*old(self)
                }),
                _ => inner is None && *final(self) == *old(self),
            },
    {
        match &mut self.state {
            CallFutureState::Running { inner, .. } => Some(inner),
            _ => None,
        }
    }

    /// Polls the answer to the call. `waker` wakes the task that polls, and `inner` is what
    /// became of the work of the handler, which counts for a call that is running only.
    pub fn poll<E: CallError>(&mut self, waker: W, inner: Poll<Result<Bytes, E>>) -> (answer: Poll<
        (Message, DispatchFlow),
    >)
        ensures
            polling(*old(self), *final(self), waker, inner, answer),
    {
        let mut state = CallFutureState::Terminated;
        core::mem::swap(&mut state, &mut self.state);
        match state {
            CallFutureState::Running { inner: work, .. } => match inner {
                Poll::Pending => {
                    self.state = CallFutureState::Running { inner: work, waker: Some(waker) };
                    Poll::Pending
                },
                Poll::Ready(outcome) => Poll::Ready(answer(self.id, self.address, outcome)),
            },
            CallFutureState::Canceled => Poll::Ready(
                (
                    Message::Canceled { id: self.id, address: self.address },
                    DispatchFlow::Continue,
                ),
            ),
            CallFutureState::Terminated => Poll::Pending,
        }
    }
}

/// An answer that may be there, as what polling gives.
pub open spec fn as_poll(answer: Option<(Message, DispatchFlow)>) -> Poll<(Message, DispatchFlow)> {
    match answer {
        Some(given) => Poll::Ready(given),
        None => Poll::Pending,
    }
}

/// One step in the life of a call: it is canceled, or it is polled, which may give its answer.
pub open spec fn call_step<F, W, E: CallError>(
    before: CallFuture<F, W>,
    after: CallFuture<F, W>,
    answer: Option<(Message, DispatchFlow)>,
) -> bool {
    ||| answer is None && exists|woken: Option<W>| #[trigger] canceling(before, after, woken)
    ||| exists|waker: W, inner: Poll<Result<Bytes, E>>|
        #[trigger] polling::<F, W, E>(before, after, waker, inner, as_poll(answer))
}

/// A life of a call: the states that it goes through, and the answer that each step gives.
pub open spec fn call_life<F, W, E: CallError>(
    states: Seq<CallFuture<F, W>>,
    given: Seq<Option<(Message, DispatchFlow)>>,
) -> bool {
    &&& states.len() == given.len() + 1
    &&& forall|i: int|
        0 <= i < given.len() ==> call_step::<F, W, E>(states[i], states[i + 1], #[trigger] given[i])
}

/// A call that was answered stays so, and is not answered again.
proof fn terminated_for_good<F, W, E: CallError>(
    states: Seq<CallFuture<F, W>>,
    given: Seq<Option<(Message, DispatchFlow)>>,
    from: int,
    to: int,
)
    requires
        call_life::<F, W, E>(states, given),
        0 <= from <= to <= given.len(),
        states[from].state is Terminated,
    ensures
        states[to].state is Terminated,
        forall|j: int| from <= j < to ==> (#[trigger] given[j]) is None,
    decreases to - from,
{
    if from < to {
        terminated_for_good::<F, W, E>(states, given, from, to - 1);
        assert(call_step::<F, W, E>(states[to - 1], states[to - 1 + 1], given[to - 1]));
    }
}

/// Whatever happens to a call, it is answered at most once.
pub proof fn answered_at_most_once<F, W, E: CallError>(
    states: Seq<CallFuture<F, W>>,
    given: Seq<Option<(Message, DispatchFlow)>>,
    first: int,
    second: int,
)
    requires
        call_life::<F, W, E>(states, given),
        0 <= first < second < given.len(),
        given[first] is Some,
    ensures
        given[second] is None,
{
    assert(call_step::<F, W, E>(states[first], states[first + 1], given[first]));
    terminated_for_good::<F, W, E>(states, given, first + 1, second + 1);
}

/// Whatever happens to a call, it keeps its identifier and its address, and its answer
/// carries them.
pub proof fn answer_names_its_call<F, W, E: CallError>(
    states: Seq<CallFuture<F, W>>,
    given: Seq<Option<(Message, DispatchFlow)>>,
    step: int,
)
    requires
        call_life::<F, W, E>(states, given),
        0 <= step < given.len(),
    ensures
        states[step].id == states[0].id,
        states[step].address == states[0].address,
        given[step] matches Some(answer) ==> answer.0.spec_id() == states[0].id
            && answer.0.spec_address() == states[0].address,
    decreases step,
{
    if step > 0 {
        answer_names_its_call::<F, W, E>(states, given, step - 1);
        assert(call_step::<F, W, E>(states[step - 1], states[step - 1 + 1], given[step - 1]));
    }
    assert(call_step::<F, W, E>(states[step], states[step + 1], given[step]));
}

/// A running call that is canceled is answered as canceled, whatever its handler does, and the
/// dispatch of messages goes on.
pub proof fn canceled_call_is_answered_so<F, W, E: CallError>(
    running: CallFuture<F, W>,
    canceled: CallFuture<F, W>,
    polled: CallFuture<F, W>,
    woken: Option<W>,
    waker: W,
    inner: Poll<Result<Bytes, E>>,
    answer: Poll<(Message, DispatchFlow)>,
)
    requires
        running.state is Running,
        canceling(running, canceled, woken),
        polling(canceled, polled, waker, inner, answer),
    ensures
        answer == Poll::Ready(
            (
                Message::Canceled { id: running.id, address: running.address },
                DispatchFlow::Continue,
            ),
        ),
{
}

} // verus!
