//! The queue between many callers and the one worker that provisions nodes.
//!
//! Callers submit names and get a ticket each. The worker takes requests one
//! at a time, oldest first, and hands in the result of each before it takes
//! the next. A result waits in the slot of its request's ticket until the
//! caller collects it. The pipeline itself never blocks: whoever shares it
//! among threads guards it with a lock, so that each call below happens at
//! once, and waits outside it.

use crate::nodemng::NodeError;
use std::collections::HashMap;
use std::collections::VecDeque;
use vstd::prelude::*;

verus! {

broadcast use vstd::std_specs::hash::group_hash_axioms;

/// A request that waits for the worker: a node's name and the ticket under
/// which its result will be kept.
#[derive(Debug)]
pub struct Request {
    pub ticket: u64,
    pub name: String,
}

/// The result of provisioning one node.
pub type NodeResult = Result<String, NodeError>;

/// Why a request was not accepted.
#[derive(Clone, Copy, Debug, PartialEq, Eq, Structural)]
pub enum PipelineError {
    /// The pipeline is closed, or has given out all its tickets.
    Unavailable,
}

/// What the worker is to do next.
#[derive(Debug)]
pub enum Next {
    /// Provision this request's node, and hand in the result.
    Serve(Request),
    /// Nothing to do for now.
    Wait,
    /// The pipeline is closed and no request is left: end.
    Stop,
}

/// One call on a pipeline.
pub enum Call {
    /// A caller submits a request for a name.
    Submit(String),
    /// The worker asks for a request.
    Take,
    /// The worker hands in a result.
    Complete(NodeResult),
    /// A caller asks for the result in the slot of a ticket.
    Collect(u64),
    /// The pipeline is closed.
    Close,
}

/// What a pipeline is: the requests that wait, oldest first; the ticket of
/// the request that the worker is busy with; the results that were not
/// collected yet, by ticket; the number of tickets given out; and whether
/// the pipeline is closed.
pub struct PipelineState {
    pub waiting: Seq<Request>,
    pub in_flight: Option<u64>,
    pub slots: Map<u64, NodeResult>,
    pub next_ticket: nat,
    pub closed: bool,
}

impl PipelineState {
    /// A pipeline that nobody has used yet.
    pub open spec fn idle() -> PipelineState {
        PipelineState {
            waiting: Seq::empty(),
            in_flight: None,
            slots: Map::empty(),
            next_ticket: 0,
            closed: false,
        }
    }

    /// Whether a request would be accepted: the pipeline is open and has a
    /// ticket left.
    pub open spec fn accepts(self) -> bool {
        !self.closed && self.next_ticket < u64::MAX
    }

    /// Whether the worker can take a request: it is busy with none, and one
    /// waits.
    pub open spec fn ready(self) -> bool {
        self.in_flight is None && self.waiting.len() > 0
    }

    /// The pipeline after a call.
    ///
    /// A request that is accepted stands last in the queue, under the next
    /// ticket. The worker, where it is free, takes the oldest request that
    /// waits. The result that it hands in goes into the slot of the request
    /// it was busy with, and frees the worker. Collecting empties a slot.
    /// A call that cannot be served leaves the pipeline as it is.
    pub open spec fn after(self, call: Call) -> PipelineState {
        match call {
            Call::Submit(name) => if self.accepts() {
                PipelineState {
                    waiting: self.waiting.push(Request { ticket: self.next_ticket as u64, name }),
                    next_ticket: self.next_ticket + 1,
                    ..self
                }
            } else {
                self
            },
            Call::Take => if self.ready() {
                PipelineState {
                    waiting: self.waiting.drop_first(),
                    in_flight: Some(self.waiting.first().ticket),
                    ..self
                }
            } else {
                self
            },
            Call::Complete(result) => match self.in_flight {
                Some(ticket) => PipelineState {
                    in_flight: None,
                    slots: self.slots.insert(ticket, result),
                    ..self
                },
                None => self,
            },
            Call::Collect(ticket) => PipelineState { slots: self.slots.remove(ticket), ..self },
            Call::Close => PipelineState { closed: true, ..self },
        }
    }
}

/// What has happened on a pipeline since it was made.
pub struct History {
    /// The pipeline as it is now.
    pub state: PipelineState,
    /// The names of the requests that were accepted, in their order.
    pub submitted: Seq<String>,
    /// The requests that the worker took, in their order.
    pub served: Seq<Request>,
    /// The results that the worker handed in for them, in their order.
    pub answered: Seq<NodeResult>,
    /// The tickets whose result a caller has collected.
    pub collected: Set<u64>,
}

impl History {
    /// The history of a pipeline that nobody has used yet.
    pub open spec fn begin() -> History {
        History {
            state: PipelineState::idle(),
            submitted: Seq::empty(),
            served: Seq::empty(),
            answered: Seq::empty(),
            collected: Set::empty(),
        }
    }

    /// The history after one more call.
    pub open spec fn with(self, call: Call) -> History {
        let state = self.state.after(call);
        match call {
            Call::Submit(name) if self.state.accepts() => History {
                state,
                submitted: self.submitted.push(name),
                ..self
            },
            Call::Take if self.state.ready() => History {
                state,
                served: self.served.push(self.state.waiting.first()),
                ..self
            },
            Call::Complete(result) if self.state.in_flight is Some => History {
                state,
                answered: self.answered.push(result),
                ..self
            },
            Call::Collect(ticket) if self.state.slots.contains_key(ticket) => History {
                state,
                collected: self.collected.insert(ticket),
                ..self
            },
            _ => History { state, ..self },
        }
    }

    /// The history of a pipeline on which these calls were made, in this
    /// order, since it was made.
    pub open spec fn of(calls: Seq<Call>) -> History
        decreases calls.len(),
    {
        if calls.len() == 0 {
            History::begin()
        } else {
            History::of(calls.drop_last()).with(calls.last())
        }
    }

    /// Requests are served one at a time, in the order of their
    /// submission, and each result ends with the caller of its own request.
    ///
    /// The ticket of a request is its place among the accepted requests.
    /// The worker has taken the oldest of them, in their order, and the
    /// others wait in their order. It has handed in a result for each
    /// request it took, but for the one it is busy with, if any. Each
    /// result that it handed in is in the slot of its own request's ticket
    /// or was collected from there, not both; and no other slot holds
    /// anything.
    pub open spec fn in_order(self) -> bool {
        let state = self.state;
        let taken = self.served.len();
        &&& state.next_ticket == self.submitted.len() <= u64::MAX
        &&& taken + state.waiting.len() == self.submitted.len()
        &&& forall|i: int|
            0 <= i < taken ==> #[trigger] self.served[i] == Request {
                ticket: i as u64,
                name: self.submitted[i],
            }
        &&& forall|i: int|
            0 <= i < state.waiting.len() ==> #[trigger] state.waiting[i] == Request {
                ticket: (taken + i) as u64,
                name: self.submitted[taken + i],
            }
        &&& match state.in_flight {
            Some(ticket) => taken == self.answered.len() + 1 && ticket == self.answered.len(),
            None => taken == self.answered.len(),
        }
        &&& forall|t: u64|
            #![trigger state.slots.contains_key(t)]
            #![trigger self.collected.contains(t)]
            if t < self.answered.len() {
                &&& state.slots.contains_key(t) != self.collected.contains(t)
                &&& state.slots.contains_key(t) ==> state.slots[t] == self.answered[t as int]
            } else {
                !state.slots.contains_key(t) && !self.collected.contains(t)
            }
    }
}

/// One more call keeps a history in order.
pub proof fn lemma_call_keeps_order(history: History, call: Call)
    requires
        history.in_order(),
    ensures
        history.with(call).in_order(),
{
    let next = history.with(call);
    let taken = history.served.len();
    match call {
        Call::Submit(name) => {
            if history.state.accepts() {
                assert forall|i: int| 0 <= i < next.state.waiting.len() implies #[trigger] next.state.waiting[i]
                    == (Request {
                    ticket: (taken + i) as u64,
                    name: next.submitted[taken + i],
                }) by {
                    if i < history.state.waiting.len() {
                        assert(next.state.waiting[i] == history.state.waiting[i]);
                    }
                }
            }
        },
        Call::Take => {
            if history.state.ready() {
                assert(history.state.waiting[0] == history.state.waiting.first());
                assert forall|i: int| 0 <= i < next.state.waiting.len() implies #[trigger] next.state.waiting[i]
                    == (Request {
                    ticket: (taken + 1 + i) as u64,
                    name: next.submitted[taken + 1 + i],
                }) by {
                    assert(next.state.waiting[i] == history.state.waiting[i + 1]);
                }
            }
        },
        _ => {},
    }
}

/// Whatever calls are made on a pipeline, in whatever order, its history
/// is in order.
pub proof fn lemma_requests_are_served_in_order(calls: Seq<Call>)
    ensures
        History::of(calls).in_order(),
    decreases calls.len(),
{
    if calls.len() > 0 {
        lemma_requests_are_served_in_order(calls.drop_last());
        lemma_call_keeps_order(History::of(calls.drop_last()), calls.last());
    }
}

/// The queue between the callers and the worker.
pub struct Pipeline {
    waiting: VecDeque<Request>,
    in_flight: Option<u64>,
    slots: HashMap<u64, NodeResult>,
    next_ticket: u64,
    closed: bool,
}

impl View for Pipeline {
    type V = PipelineState;

    closed spec fn view(&self) -> PipelineState {
        PipelineState {
            waiting: self.waiting@,
            in_flight: self.in_flight,
            slots: self.slots@,
            next_ticket: self.next_ticket as nat,
            closed: self.closed,
        }
    }
}

impl Pipeline {
    /// A pipeline that nobody has used yet.
    pub fn new() -> (pipeline: Pipeline)
        ensures
            pipeline@ == PipelineState::idle(),
    {
        Pipeline {
            waiting: VecDeque::new(),
            in_flight: None,
            slots: HashMap::new(),
            next_ticket: 0,
            closed: false,
        }
    }

    /// Puts a request for `name` at the end of the queue and returns its
    /// ticket. A pipeline that is closed, or that has given out all its
    /// tickets, accepts nothing.
    pub fn submit(&mut self, name: String) -> (ticket: Result<u64, PipelineError>)
        ensures
            final(self)@ == old(self)@.after(Call::Submit(name)),
            ticket == if old(self)@.accepts() {
                Ok::<u64, PipelineError>(old(self)@.next_ticket as u64)
            } else {
                Err(PipelineError::Unavailable)
            },
    {
        if self.closed || self.next_ticket == u64::MAX {
            return Err(PipelineError::Unavailable);
        }
        let ticket: u64 = self.next_ticket;
        self.waiting.push_back(Request { ticket, name });
        self.next_ticket = ticket + 1;
        Ok(ticket)
    }

    /// Gives the worker the oldest request that waits, where the worker is
    /// busy with none. Where there is nothing to take, the worker is told
    /// to end if it is free and the pipeline is closed, and to wait
    /// otherwise.
    pub fn take(&mut self) -> (next: Next)
        ensures
            final(self)@ == old(self)@.after(Call::Take),
            next == if old(self)@.ready() {
                Next::Serve(old(self)@.waiting.first())
            } else if old(self)@.in_flight is None && old(self)@.closed {
                Next::Stop
            } else {
                Next::Wait
            },
    {
        if self.in_flight.is_some() {
            return Next::Wait;
        }
        match self.waiting.pop_front() {
            Some(request) => {
                self.in_flight = Some(request.ticket);
                assert(self.waiting@ == old(self).waiting@.drop_first());
                Next::Serve(request)
            },
            None => if self.closed {
                Next::Stop
            } else {
                Next::Wait
            },
        }
    }

    /// Takes the result of the request that the worker is busy with, puts
    /// it in the slot of that request's ticket, and frees the worker. The
    /// ticket is returned. Where the worker is busy with no request, the
    /// result is dropped.
    pub fn complete(&mut self, result: NodeResult) -> (ticket: Option<u64>)
        ensures
            final(self)@ == old(self)@.after(Call::Complete(result)),
            ticket == old(self)@.in_flight,
    {
        match self.in_flight {
            Some(ticket) => {
                self.slots.insert(ticket, result);
                self.in_flight = None;
                Some(ticket)
            },
            None => None,
        }
    }

    /// Empties the slot of a ticket and returns the result that was in it.
    /// A slot is empty until the worker has handed in the result of the
    /// ticket's request, and again once that result was collected.
    pub fn collect(&mut self, ticket: u64) -> (result: Option<NodeResult>)
        ensures
            final(self)@ == old(self)@.after(Call::Collect(ticket)),
            result == if old(self)@.slots.contains_key(ticket) {
                Some(old(self)@.slots[ticket])
            } else {
                None
            },
    {
        let result: Option<NodeResult> = self.slots.remove(&ticket);
        assert(self.slots@ == old(self).slots@.remove(ticket));
        result
    }

    /// Closes the pipeline: it accepts no more requests. The requests that
    /// wait are still served.
    pub fn close(&mut self)
        ensures
            final(self)@ == old(self)@.after(Call::Close),
    {
        self.closed = true;
    }
}

} // verus!
