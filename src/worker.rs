//! The worker's side of the bus: envelopes wait in arrival order, and exactly
//! one of them is served at a time. Each served request gets a ticket that
//! ties it to the completion slot while it is in flight.
use vstd::prelude::*;
use std::collections::VecDeque;
use crate::bridge::CompletionSlot;

verus! {

/// The mathematical state of the worker's queue.
pub struct WorkerView<E> {
    /// Requests that arrived and are not served yet, oldest first.
    pub pending: Seq<E>,
    /// The ticket of the request being served, if any.
    pub in_flight: Option<u64>,
    /// The ticket the next served request gets.
    pub next_ticket: u64,
}

pub open spec fn ticket_after(t: u64) -> u64 {
    if t == u64::MAX {
        0
    } else {
        (t + 1) as u64
    }
}

impl<E> WorkerView<E> {
    pub open spec fn enqueue(self, e: E) -> WorkerView<E> {
        WorkerView { pending: self.pending.push(e), ..self }
    }

    /// Whether `begin_next` hands a request out.
    pub open spec fn can_begin(self) -> bool {
        self.in_flight is None && self.pending.len() > 0
    }

    /// Serving the oldest request, when the worker is free.
    pub open spec fn begin_next(self) -> WorkerView<E> {
        if self.can_begin() {
            WorkerView {
                pending: self.pending.drop_first(),
                in_flight: Some(self.next_ticket),
                next_ticket: ticket_after(self.next_ticket),
            }
        } else {
            self
        }
    }

    pub open spec fn finish(self) -> WorkerView<E> {
        WorkerView { in_flight: None, ..self }
    }
}

/// Requests waiting for the worker, and the one it serves.
pub struct WorkerQueue<E> {
    pending: VecDeque<E>,
    in_flight: Option<u64>,
    next_ticket: u64,
}

impl<E> View for WorkerQueue<E> {
    type V = WorkerView<E>;

    closed spec fn view(&self) -> WorkerView<E> {
        WorkerView { pending: self.pending@, in_flight: self.in_flight, next_ticket: self.next_ticket }
    }
}

impl<E> WorkerQueue<E> {
    pub fn new() -> (r: Self)
        ensures
            r@.pending == Seq::<E>::empty(),
            r@.in_flight is None,
            r@.next_ticket == 0,
    {
        WorkerQueue { pending: VecDeque::new(), in_flight: None, next_ticket: 0 }
    }

    /// Adds a request that arrived, behind all earlier ones.
    pub fn enqueue(&mut self, e: E)
        ensures
            final(self)@ == old(self)@.enqueue(e),
    {
        self.pending.push_back(e);
    }

    pub fn pending_len(&self) -> (r: usize)
        ensures
            r == self@.pending.len(),
    {
        self.pending.len()
    }

    pub fn in_flight(&self) -> (r: Option<u64>)
        ensures
            r == self@.in_flight,
    {
        self.in_flight
    }

    /// Hands out the oldest waiting request with its ticket, but only when no
    /// request is in flight.
    pub fn begin_next(&mut self) -> (r: Option<(u64, E)>)
        ensures
            final(self)@ == old(self)@.begin_next(),
            r is Some <==> old(self)@.can_begin(),
            r matches Some((t, e)) ==> t == old(self)@.next_ticket && e == old(self)@.pending[0],
    {
        if self.in_flight.is_some() {
            return None;
        }
        match self.pending.pop_front() {
            Some(e) => {
                let t = self.next_ticket;
                self.in_flight = Some(t);
                self.next_ticket = if t == u64::MAX {
                    0
                } else {
                    t + 1
                };
                Some((t, e))
            },
            None => None,
        }
    }

    /// The request in flight reached its terminal state and was answered.
    pub fn finish(&mut self)
        ensures
            final(self)@ == old(self)@.finish(),
    {
        self.in_flight = None;
    }
}

/// While a request is in flight, no other request is handed out, and the
/// queue is left as it is.
pub proof fn lemma_one_request_in_flight<E>(w: WorkerView<E>, e: E)
    requires
        w.in_flight is Some,
    ensures
        w.begin_next() == w,
        w.enqueue(e).begin_next() == w.enqueue(e),
{
}

/// Two requests that arrive back to back at a free worker are served in
/// arrival order, and the second only after the first has finished.
pub proof fn lemma_serialized_in_arrival_order<E>(w: WorkerView<E>, first: E, second: E)
    requires
        w.in_flight is None,
        w.pending.len() == 0,
    ensures
        ({
            let queued = w.enqueue(first).enqueue(second);
            let serving_first = queued.begin_next();
            let after_first = serving_first.finish();
            &&& queued.can_begin()
            &&& queued.pending[0] == first
            &&& serving_first.in_flight == Some(w.next_ticket)
            &&& !serving_first.can_begin()
            &&& serving_first.begin_next() == serving_first
            &&& after_first.can_begin()
            &&& after_first.pending[0] == second
            &&& after_first.begin_next().in_flight == Some(ticket_after(w.next_ticket))
            &&& after_first.begin_next().pending.len() == 0
        }),
{
    let queued = w.enqueue(first).enqueue(second);
    assert(queued.pending =~= seq![first, second]);
    assert(queued.begin_next().pending =~= seq![second]);
}

/// Whether the event loop may fetch a live view frame this tick: only when
/// live view is enabled and no request holds the completion slot.
pub fn wants_live_view_frame(enabled: bool, slot: &CompletionSlot) -> (r: bool)
    ensures
        r == (enabled && slot@.ticket is None),
{
    enabled && !slot.is_installed()
}

} // verus!
