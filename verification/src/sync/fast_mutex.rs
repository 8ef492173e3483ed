//! A lock that one caller holds at a time.
//!
//! Like the lock for readers and writers, this lock is described by what it
//! decides. Every request draws a ticket, in ascending order. A request is
//! granted at once if nobody holds the lock, and waits in a queue otherwise.
//! When the holder lets go, the lock passes to the one request that has
//! waited longest. The lock does not know its callers: a caller that holds
//! the lock and asks for it again waits for itself.

use vstd::prelude::*;
use crate::sync::tickets::position;

verus! {

/// A [`FastMutex`] as a mathematical value.
pub struct FastMutexView<T> {
    /// The data that the lock guards.
    pub data: T,
    /// The ticket that the next request draws.
    pub next_ticket: u64,
    /// The ticket of the caller that holds the lock.
    pub holder: Option<u64>,
    /// The tickets of the callers that wait, the oldest first.
    pub queue: Seq<u64>,
}

impl<T> FastMutexView<T> {
    /// The caller with this ticket holds the lock.
    pub open spec fn holds(self, ticket: u64) -> bool {
        self.holder == Some(ticket)
    }

    /// The caller with this ticket waits for the lock.
    pub open spec fn waits(self, ticket: u64) -> bool {
        self.queue.contains(ticket)
    }

    /// The state is one that the lock can be in between two calls: every
    /// ticket in use has been drawn, the callers that wait stand in the order
    /// of their tickets behind the holder, and nobody waits for a lock that
    /// nobody holds.
    pub open spec fn wf(self) -> bool {
        &&& forall|i: int| 0 <= i < self.queue.len() ==> #[trigger] self.queue[i] < self.next_ticket
        &&& self.holder matches Some(ticket) ==> ticket < self.next_ticket
        &&& forall|i: int, j: int|
            0 <= i < j < self.queue.len() ==> #[trigger] self.queue[i] < #[trigger] self.queue[j]
        &&& self.holder matches Some(ticket) ==> forall|j: int|
            0 <= j < self.queue.len() ==> ticket < #[trigger] self.queue[j]
        &&& self.queue.len() > 0 ==> self.holder is Some
    }

    /// The state after a caller has asked for the lock: it holds the lock at
    /// once if nobody holds it, and joins the queue otherwise.
    pub open spec fn requested(self) -> FastMutexView<T> {
        if self.holder is None {
            FastMutexView {
                holder: Some(self.next_ticket),
                next_ticket: (self.next_ticket + 1) as u64,
                ..self
            }
        } else {
            FastMutexView {
                queue: self.queue.push(self.next_ticket),
                next_ticket: (self.next_ticket + 1) as u64,
                ..self
            }
        }
    }

    /// The state after the caller with the given ticket has let go. If it
    /// held the lock, the lock passes to the caller at the head of the queue,
    /// or to nobody where nobody waits. If it waited, it waits no more.
    pub open spec fn released(self, ticket: u64) -> FastMutexView<T> {
        if self.holder == Some(ticket) {
            if self.queue.len() > 0 {
                FastMutexView { holder: Some(self.queue[0]), queue: self.queue.remove(0), ..self }
            } else {
                FastMutexView { holder: None, ..self }
            }
        } else if self.queue.contains(ticket) {
            FastMutexView { queue: self.queue.remove(self.queue.index_of(ticket)), ..self }
        } else {
            self
        }
    }
}

/// A request leaves the lock in a state in which it can rest.
pub proof fn lemma_requested_wf<T>(state: FastMutexView<T>)
    requires
        state.wf(),
        state.next_ticket < u64::MAX,
    ensures
        state.requested().wf(),
{
}

/// A release leaves the lock in a state in which it can rest.
pub proof fn lemma_released_wf<T>(state: FastMutexView<T>, ticket: u64)
    requires
        state.wf(),
    ensures
        state.released(ticket).wf(),
{
    let next = state.released(ticket);
    if state.holder == Some(ticket) {
        if state.queue.len() > 0 {
            assert forall|i: int| 0 <= i < next.queue.len() implies #[trigger] next.queue[i]
                == state.queue[i + 1] by {}
            assert forall|i: int, j: int| 0 <= i < j < next.queue.len() implies
                #[trigger] next.queue[i] < #[trigger] next.queue[j] by {
                assert(state.queue[i + 1] < state.queue[j + 1]);
            }
            assert forall|j: int| 0 <= j < next.queue.len() implies state.queue[0]
                < #[trigger] next.queue[j] by {
                assert(state.queue[0] < state.queue[j + 1]);
            }
            assert forall|i: int| 0 <= i < next.queue.len() implies #[trigger] next.queue[i]
                < next.next_ticket by {
                assert(state.queue[i + 1] < state.next_ticket);
            }
        }
    } else if state.queue.contains(ticket) {
        let at = state.queue.index_of(ticket);
        assert forall|i: int| 0 <= i < next.queue.len() implies #[trigger] next.queue[i] == (if i
            < at {
            state.queue[i]
        } else {
            state.queue[i + 1]
        }) by {}
        assert forall|i: int, j: int| 0 <= i < j < next.queue.len() implies
            #[trigger] next.queue[i] < #[trigger] next.queue[j] by {
            let i0 = if i < at {
                i
            } else {
                i + 1
            };
            let j0 = if j < at {
                j
            } else {
                j + 1
            };
            assert(state.queue[i0] < state.queue[j0]);
        }
        assert forall|i: int| 0 <= i < next.queue.len() implies #[trigger] next.queue[i]
            < next.next_ticket by {
            let i0 = if i < at {
                i
            } else {
                i + 1
            };
            assert(state.queue[i0] < state.next_ticket);
        }
        if let Some(holder) = next.holder {
            assert forall|j: int| 0 <= j < next.queue.len() implies holder
                < #[trigger] next.queue[j] by {
                let j0 = if j < at {
                    j
                } else {
                    j + 1
                };
                assert(holder < state.queue[j0]);
            }
        }
    }
}

/// While one caller holds the lock no other caller gets it: whoever asks
/// waits, and the holder holds the lock until it lets go itself.
pub proof fn lemma_one_holder<T>(state: FastMutexView<T>, holder: u64, other: u64)
    requires
        state.wf(),
        state.holds(holder),
        other != holder,
        state.next_ticket < u64::MAX,
    ensures
        state.requested().holds(holder),
        state.requested().waits(state.next_ticket),
        state.released(other).holds(holder),
{
    let next = state.requested();
    assert(next.queue[state.queue.len() as int] == state.next_ticket);
}

/// When the holder lets go, the lock passes to exactly one caller: the one
/// that has waited longest. All others wait on, in their order.
pub proof fn lemma_release_passes_on<T>(state: FastMutexView<T>, holder: u64)
    requires
        state.wf(),
        state.holds(holder),
        state.queue.len() > 0,
    ensures
        state.released(holder).holds(state.queue[0]),
        state.released(holder).queue == state.queue.remove(0),
        !state.released(holder).waits(state.queue[0]),
{
    let next = state.released(holder);
    if next.waits(state.queue[0]) {
        let j = choose|j: int| 0 <= j < next.queue.len() && next.queue[j] == state.queue[0];
        assert(next.queue[j] == state.queue[j + 1]);
        assert(state.queue[0] < state.queue[j + 1]);
    }
}

/// A lock around a value of type `T` that one caller holds at a time.
#[derive(Debug)]
pub struct FastMutex<T> {
    data: T,
    next_ticket: u64,
    holder: Option<u64>,
    queue: Vec<u64>,
}

impl<T> View for FastMutex<T> {
    type V = FastMutexView<T>;

    closed spec fn view(&self) -> FastMutexView<T> {
        FastMutexView {
            data: self.data,
            next_ticket: self.next_ticket,
            holder: self.holder,
            queue: self.queue@,
        }
    }
}

/// The stand-in of a caller, from its request for the lock to its release.
#[derive(Debug)]
pub struct FastMutexGuard {
    ticket: u64,
}

impl FastMutexGuard {
    /// The ticket that the caller drew.
    pub closed spec fn spec_ticket(&self) -> u64 {
        self.ticket
    }

    /// The ticket that the caller drew.
    #[verifier::when_used_as_spec(spec_ticket)]
    pub fn ticket(&self) -> (ticket: u64)
        ensures
            ticket == self.spec_ticket(),
    {
        self.ticket
    }
}

impl<T> FastMutex<T> {
    /// A lock around `data` that nobody holds and nobody waits for.
    pub fn new(data: T) -> (lock: FastMutex<T>)
        ensures
            lock@ == (FastMutexView { data, next_ticket: 0, holder: None, queue: Seq::empty() }),
            lock@.wf(),
    {
        FastMutex { data, next_ticket: 0, holder: None, queue: Vec::new() }
    }

    /// Takes the lock apart and returns the data that it guarded.
    pub fn into_inner(self) -> (data: T)
        ensures
            data == self@.data,
    {
        self.data
    }

    /// Asks for the lock, and returns the guard that stands for the caller
    /// from now on. The caller holds the lock at once if nobody holds it, and
    /// waits otherwise. `None` is returned, and nothing changes, when all
    /// tickets have been drawn.
    pub fn lock(&mut self) -> (guard: Option<FastMutexGuard>)
        requires
            old(self)@.wf(),
        ensures
            final(self)@.wf(),
            match guard {
                Some(guard) => old(self)@.next_ticket < u64::MAX && guard.spec_ticket() == old(
                    self,
                )@.next_ticket && final(self)@ == old(self)@.requested(),
                None => old(self)@.next_ticket == u64::MAX && final(self)@ == old(self)@,
            },
    {
        if self.next_ticket == u64::MAX {
            return None;
        }
        let ticket = self.next_ticket;
        self.next_ticket = ticket + 1;
        if self.holder.is_none() {
            self.holder = Some(ticket);
        } else {
            self.queue.push(ticket);
        }
        Some(FastMutexGuard { ticket })
    }

    /// Whether the caller behind the guard holds the lock.
    pub fn holds(&self, guard: &FastMutexGuard) -> (held: bool)
        ensures
            held == self@.holds(guard.spec_ticket()),
    {
        match self.holder {
            Some(ticket) => ticket == guard.ticket,
            None => false,
        }
    }

    /// The data, open to change, for the caller that holds the lock; `None`
    /// for one that does not hold it.
    pub fn get_mut(&mut self, guard: &FastMutexGuard) -> (data: Option<&mut T>)
        ensures
            match data {
                Some(data) => old(self)@.holds(guard.spec_ticket()) && *data == old(self)@.data
                    && final(self)@ == (FastMutexView { data: *final(data), ..old(self)@ }),
                None => !old(self)@.holds(guard.spec_ticket()) && final(self)@ == old(self)@,
            },
    {
        if self.holds(guard) {
            Some(&mut self.data)
        } else {
            None
        }
    }

    /// Lets go for a caller: of the lock if it held it, of its place in the
    /// queue if it waited. The guard is used up.
    pub fn unlock(&mut self, guard: FastMutexGuard)
        requires
            old(self)@.wf(),
        ensures
            final(self)@ == old(self)@.released(guard.spec_ticket()),
            final(self)@.wf(),
    {
        proof {
            lemma_released_wf(self@, guard.ticket);
        }
        if self.holds(&guard) {
            if self.queue.len() > 0 {
                let next = self.queue.remove(0);
                self.holder = Some(next);
            } else {
                self.holder = None;
            }
        } else {
            assert(self@.queue == self.queue@);
            match position(&self.queue, guard.ticket) {
                Some(i) => {
                    self.queue.remove(i);
                },
                None => {},
            }
        }
    }
}

} // verus!
