//! A lock for many readers or one writer, in which a writer that waits is
//! served before every reader that came after it.
//!
//! The lock is described here by what it decides, not by how it makes a
//! caller wait. Every request for access draws a ticket, and tickets are
//! drawn in ascending order. A request that can be granted at once is
//! granted; every other request joins a queue. Whenever access is released,
//! requests are granted from the head of the queue for as long as the head
//! can be granted: a writer when nobody holds the lock, a reader when no
//! writer holds it. Nothing is ever granted from behind the head, so no
//! request overtakes a request that came before it.
//!
//! The guard that a request returns stands for the caller from its request to
//! its release. Between the two the caller is inside a region in which it
//! cannot be rescheduled; it may touch the data once its guard holds the
//! lock.

use vstd::prelude::*;
use crate::sync::tickets::position;

verus! {

/// A request that waits for the lock.
#[derive(Clone, Copy, Debug, PartialEq, Eq, Structural)]
pub struct Waiter {
    /// The ticket that the request drew.
    pub ticket: u64,
    /// Whether the request is that of a writer.
    pub exclusive: bool,
}

/// A [`PushLock`] as a mathematical value.
pub struct PushLockView<T> {
    /// The data that the lock guards.
    pub data: T,
    /// The ticket that the next request draws.
    pub next_ticket: u64,
    /// The tickets of the readers that hold the lock.
    pub shared: Seq<u64>,
    /// The ticket of the writer that holds the lock.
    pub exclusive: Option<u64>,
    /// The requests that wait, the oldest first.
    pub queue: Seq<Waiter>,
}

/// The sequence without the entry at the first place where `ticket` stands;
/// the sequence itself where it stands nowhere.
pub open spec fn without(tickets: Seq<u64>, ticket: u64) -> Seq<u64> {
    if tickets.contains(ticket) {
        tickets.remove(tickets.index_of(ticket))
    } else {
        tickets
    }
}

/// The queue without the given request; the queue itself where the request
/// does not wait.
pub open spec fn without_waiter(queue: Seq<Waiter>, waiter: Waiter) -> Seq<Waiter> {
    if queue.contains(waiter) {
        queue.remove(queue.index_of(waiter))
    } else {
        queue
    }
}

impl<T> PushLockView<T> {
    /// The reader with this ticket holds the lock.
    pub open spec fn holds_shared(self, ticket: u64) -> bool {
        self.shared.contains(ticket)
    }

    /// The writer with this ticket holds the lock.
    pub open spec fn holds_exclusive(self, ticket: u64) -> bool {
        self.exclusive == Some(ticket)
    }

    /// The reader with this ticket waits for the lock.
    pub open spec fn waits_shared(self, ticket: u64) -> bool {
        self.queue.contains(Waiter { ticket, exclusive: false })
    }

    /// The writer with this ticket waits for the lock.
    pub open spec fn waits_exclusive(self, ticket: u64) -> bool {
        self.queue.contains(Waiter { ticket, exclusive: true })
    }

    /// No writer holds the lock and none waits for it.
    pub open spec fn writer_free(self) -> bool {
        &&& self.exclusive is None
        &&& forall|i: int| 0 <= i < self.queue.len() ==> !(#[trigger] self.queue[i]).exclusive
    }

    /// Every ticket in use has been drawn.
    pub open spec fn issued(self) -> bool {
        &&& forall|i: int| 0 <= i < self.shared.len() ==> #[trigger] self.shared[i] < self.next_ticket
        &&& forall|i: int|
            0 <= i < self.queue.len() ==> (#[trigger] self.queue[i]).ticket < self.next_ticket
        &&& self.exclusive matches Some(ticket) ==> ticket < self.next_ticket
    }

    /// The readers that hold the lock, and the requests that wait, stand in
    /// the order in which they drew their tickets.
    pub open spec fn ordered(self) -> bool {
        &&& forall|i: int, j: int|
            0 <= i < j < self.shared.len() ==> #[trigger] self.shared[i] < #[trigger] self.shared[j]
        &&& forall|i: int, j: int|
            0 <= i < j < self.queue.len() ==> (#[trigger] self.queue[i]).ticket < (
            #[trigger] self.queue[j]).ticket
    }

    /// Whoever holds the lock drew its ticket before everyone who waits.
    pub open spec fn first_come_first_served(self) -> bool {
        &&& forall|i: int, j: int|
            0 <= i < self.shared.len() && 0 <= j < self.queue.len() ==> #[trigger] self.shared[i]
                < (#[trigger] self.queue[j]).ticket
        &&& self.exclusive matches Some(ticket) ==> forall|j: int|
            0 <= j < self.queue.len() ==> ticket < (#[trigger] self.queue[j]).ticket
    }

    /// A writer holds the lock alone.
    pub open spec fn exclusion(self) -> bool {
        self.exclusive is Some ==> self.shared.len() == 0
    }

    /// The oldest request that waits cannot be granted: a writer at the head
    /// of the queue finds the lock held, a reader finds it held by a writer.
    pub open spec fn settled(self) -> bool {
        self.queue.len() > 0 ==> if self.queue[0].exclusive {
            self.exclusive is Some || self.shared.len() > 0
        } else {
            self.exclusive is Some
        }
    }

    /// The state is one that the lock can be in after its requests have been
    /// recorded and before the queue has been served.
    pub open spec fn wf_unsettled(self) -> bool {
        &&& self.issued()
        &&& self.ordered()
        &&& self.first_come_first_served()
        &&& self.exclusion()
    }

    /// The state is one that the lock can be in between two calls.
    pub open spec fn wf(self) -> bool {
        &&& self.wf_unsettled()
        &&& self.settled()
    }

    /// The state after a reader has asked for the lock: it holds the lock at
    /// once if no writer holds it and nobody waits, and joins the queue
    /// otherwise.
    pub open spec fn requested_shared(self) -> PushLockView<T> {
        if self.exclusive is None && self.queue.len() == 0 {
            PushLockView {
                shared: self.shared.push(self.next_ticket),
                next_ticket: (self.next_ticket + 1) as u64,
                ..self
            }
        } else {
            PushLockView {
                queue: self.queue.push(Waiter { ticket: self.next_ticket, exclusive: false }),
                next_ticket: (self.next_ticket + 1) as u64,
                ..self
            }
        }
    }

    /// The state after a writer has asked for the lock: it holds the lock at
    /// once if nobody holds it and nobody waits, and joins the queue
    /// otherwise.
    pub open spec fn requested_exclusive(self) -> PushLockView<T> {
        if self.exclusive is None && self.shared.len() == 0 && self.queue.len() == 0 {
            PushLockView {
                exclusive: Some(self.next_ticket),
                next_ticket: (self.next_ticket + 1) as u64,
                ..self
            }
        } else {
            PushLockView {
                queue: self.queue.push(Waiter { ticket: self.next_ticket, exclusive: true }),
                next_ticket: (self.next_ticket + 1) as u64,
                ..self
            }
        }
    }

    /// The state after the queue has been served: requests are granted from
    /// its head until the head cannot be granted.
    pub open spec fn admitted(self) -> PushLockView<T>
        decreases self.queue.len(),
    {
        if self.queue.len() == 0 {
            self
        } else if self.queue[0].exclusive {
            if self.exclusive is None && self.shared.len() == 0 {
                PushLockView {
                    exclusive: Some(self.queue[0].ticket),
                    queue: self.queue.remove(0),
                    ..self
                }
            } else {
                self
            }
        } else if self.exclusive is None {
            (PushLockView {
                shared: self.shared.push(self.queue[0].ticket),
                queue: self.queue.remove(0),
                ..self
            }).admitted()
        } else {
            self
        }
    }

    /// The state after the reader with the given ticket has let go: of the
    /// lock if it held it, of its place in the queue if it waited.
    pub open spec fn released_shared(self, ticket: u64) -> PushLockView<T> {
        (PushLockView {
            shared: without(self.shared, ticket),
            queue: without_waiter(self.queue, Waiter { ticket, exclusive: false }),
            ..self
        }).admitted()
    }

    /// The state after the writer with the given ticket has let go: of the
    /// lock if it held it, of its place in the queue if it waited.
    pub open spec fn released_exclusive(self, ticket: u64) -> PushLockView<T> {
        (PushLockView {
            exclusive: if self.exclusive == Some(ticket) {
                None
            } else {
                self.exclusive
            },
            queue: without_waiter(self.queue, Waiter { ticket, exclusive: true }),
            ..self
        }).admitted()
    }
}

/// Serving the queue leads from a state in which requests have been recorded
/// to a state in which the lock can rest. It grants a prefix of the queue and
/// takes the lock from nobody.
pub proof fn lemma_admitted_wf<T>(state: PushLockView<T>)
    requires
        state.wf_unsettled(),
    ensures
        state.admitted().wf(),
        state.admitted().data == state.data,
        state.admitted().next_ticket == state.next_ticket,
        state.exclusive is Some ==> state.admitted().exclusive == state.exclusive,
        forall|ticket: u64| state.holds_shared(ticket) ==> state.admitted().holds_shared(ticket),
    decreases state.queue.len(),
{
    if state.queue.len() == 0 {
    } else if state.queue[0].exclusive {
        if state.exclusive is None && state.shared.len() == 0 {
            let next = state.admitted();
            assert forall|j: int| 0 <= j < next.queue.len() implies state.queue[0].ticket < (
            #[trigger] next.queue[j]).ticket by {
                assert(next.queue[j] == state.queue[j + 1]);
            }
            assert forall|i: int, j: int| 0 <= i < j < next.queue.len() implies (
            #[trigger] next.queue[i]).ticket < (#[trigger] next.queue[j]).ticket by {
                assert(next.queue[i] == state.queue[i + 1]);
                assert(next.queue[j] == state.queue[j + 1]);
            }
            assert forall|i: int| 0 <= i < next.queue.len() implies (
            #[trigger] next.queue[i]).ticket < next.next_ticket by {
                assert(next.queue[i] == state.queue[i + 1]);
            }
        }
    } else if state.exclusive is None {
        let step = PushLockView {
            shared: state.shared.push(state.queue[0].ticket),
            queue: state.queue.remove(0),
            ..state
        };
        lemma_step_unsettled(state);
        lemma_admitted_wf(step);
        assert forall|ticket: u64| state.holds_shared(ticket) implies state.admitted().holds_shared(
            ticket,
        ) by {
            let i = choose|i: int| 0 <= i < state.shared.len() && state.shared[i] == ticket;
            assert(step.shared[i] == ticket);
            assert(step.holds_shared(ticket));
            assert(state.admitted() == step.admitted());
        }
    }
}

/// The place of a request in a queue of ascending tickets.
fn place_in_queue(queue: &Vec<Waiter>, waiter: Waiter) -> (place: Option<usize>)
    requires
        forall|i: int, j: int|
            0 <= i < j < queue@.len() ==> (#[trigger] queue@[i]).ticket < (
            #[trigger] queue@[j]).ticket,
    ensures
        match place {
            Some(i) => i < queue@.len() && queue@[i as int] == waiter && queue@.contains(waiter)
                && queue@.index_of(waiter) == i,
            None => !queue@.contains(waiter),
        },
{
    let mut i: usize = 0;
    while i < queue.len()
        invariant
            i <= queue@.len(),
            forall|k: int| 0 <= k < i ==> queue@[k] != waiter,
            forall|a: int, b: int|
                0 <= a < b < queue@.len() ==> (#[trigger] queue@[a]).ticket < (
                #[trigger] queue@[b]).ticket,
        decreases queue@.len() - i,
    {
        let entry = queue[i];
        if entry.ticket == waiter.ticket && entry.exclusive == waiter.exclusive {
            proof {
                let found = queue@.index_of(waiter);
                assert(queue@.contains(waiter));
                if found < i as int {
                    assert(queue@[found].ticket < queue@[i as int].ticket);
                } else if found > i as int {
                    assert(queue@[i as int].ticket < queue@[found].ticket);
                }
            }
            return Some(i);
        }
        i = i + 1;
    }
    None
}

/// A lock for many readers or one writer around a value of type `T`.
#[derive(Debug)]
pub struct PushLock<T> {
    data: T,
    next_ticket: u64,
    shared: Vec<u64>,
    exclusive: Option<u64>,
    queue: Vec<Waiter>,
}

impl<T> View for PushLock<T> {
    type V = PushLockView<T>;

    closed spec fn view(&self) -> PushLockView<T> {
        PushLockView {
            data: self.data,
            next_ticket: self.next_ticket,
            shared: self.shared@,
            exclusive: self.exclusive,
            queue: self.queue@,
        }
    }
}

/// The stand-in of a reader, from its request for the lock to its release.
#[derive(Debug)]
pub struct PushLockReadGuard {
    ticket: u64,
}

/// The stand-in of a writer, from its request for the lock to its release.
#[derive(Debug)]
pub struct PushLockWriteGuard {
    ticket: u64,
}

impl PushLockReadGuard {
    /// The ticket that the reader drew.
    pub closed spec fn spec_ticket(&self) -> u64 {
        self.ticket
    }

    /// The ticket that the reader drew.
    #[verifier::when_used_as_spec(spec_ticket)]
    pub fn ticket(&self) -> (ticket: u64)
        ensures
            ticket == self.spec_ticket(),
    {
        self.ticket
    }
}

impl PushLockWriteGuard {
    /// The ticket that the writer drew.
    pub closed spec fn spec_ticket(&self) -> u64 {
        self.ticket
    }

    /// The ticket that the writer drew.
    #[verifier::when_used_as_spec(spec_ticket)]
    pub fn ticket(&self) -> (ticket: u64)
        ensures
            ticket == self.spec_ticket(),
    {
        self.ticket
    }
}

impl<T> PushLock<T> {
    /// A lock around `data` that nobody holds and nobody waits for.
    pub fn new(data: T) -> (lock: PushLock<T>)
        ensures
            lock@ == (PushLockView {
                data,
                next_ticket: 0,
                shared: Seq::empty(),
                exclusive: None,
                queue: Seq::empty(),
            }),
            lock@.wf(),
    {
        PushLock { data, next_ticket: 0, shared: Vec::new(), exclusive: None, queue: Vec::new() }
    }

    /// Takes the lock apart and returns the data that it guarded.
    pub fn into_inner(self) -> (data: T)
        ensures
            data == self@.data,
    {
        self.data
    }

    /// Asks for the lock for a reader, and returns the guard that stands for
    /// the reader from now on.
    ///
    /// The reader holds the lock at once if no writer holds it and nobody
    /// waits for it; otherwise it waits behind everyone who waits already.
    /// `None` is returned, and nothing changes, when all tickets have been
    /// drawn.
    pub fn read(&mut self) -> (guard: Option<PushLockReadGuard>)
        requires
            old(self)@.wf(),
        ensures
            final(self)@.wf(),
            match guard {
                Some(guard) => old(self)@.next_ticket < u64::MAX && guard.spec_ticket() == old(
                    self,
                )@.next_ticket && final(self)@ == old(self)@.requested_shared(),
                None => old(self)@.next_ticket == u64::MAX && final(self)@ == old(self)@,
            },
    {
        if self.next_ticket == u64::MAX {
            return None;
        }
        let ticket = self.next_ticket;
        self.next_ticket = ticket + 1;
        if self.exclusive.is_none() && self.queue.len() == 0 {
            self.shared.push(ticket);
        } else {
            self.queue.push(Waiter { ticket, exclusive: false });
        }
        Some(PushLockReadGuard { ticket })
    }

    /// Asks for the lock for a writer, and returns the guard that stands for
    /// the writer from now on.
    ///
    /// The writer holds the lock at once if nobody holds it and nobody waits
    /// for it; otherwise it waits behind everyone who waits already. `None`
    /// is returned, and nothing changes, when all tickets have been drawn.
    pub fn write(&mut self) -> (guard: Option<PushLockWriteGuard>)
        requires
            old(self)@.wf(),
        ensures
            final(self)@.wf(),
            match guard {
                Some(guard) => old(self)@.next_ticket < u64::MAX && guard.spec_ticket() == old(
                    self,
                )@.next_ticket && final(self)@ == old(self)@.requested_exclusive(),
                None => old(self)@.next_ticket == u64::MAX && final(self)@ == old(self)@,
            },
    {
        if self.next_ticket == u64::MAX {
            return None;
        }
        let ticket = self.next_ticket;
        self.next_ticket = ticket + 1;
        if self.exclusive.is_none() && self.shared.len() == 0 && self.queue.len() == 0 {
            self.exclusive = Some(ticket);
        } else {
            self.queue.push(Waiter { ticket, exclusive: true });
        }
        Some(PushLockWriteGuard { ticket })
    }

    /// Whether the reader behind the guard holds the lock.
    pub fn holds_read(&self, guard: &PushLockReadGuard) -> (held: bool)
        requires
            self@.wf(),
        ensures
            held == self@.holds_shared(guard.spec_ticket()),
    {
        assert(self@.ordered() && self@.shared == self.shared@);
        position(&self.shared, guard.ticket).is_some()
    }

    /// Whether the writer behind the guard holds the lock.
    pub fn holds_write(&self, guard: &PushLockWriteGuard) -> (held: bool)
        ensures
            held == self@.holds_exclusive(guard.spec_ticket()),
    {
        match self.exclusive {
            Some(ticket) => ticket == guard.ticket,
            None => false,
        }
    }

    /// The data, for a reader that holds the lock; `None` for one that does
    /// not hold it.
    pub fn get(&self, guard: &PushLockReadGuard) -> (data: Option<&T>)
        requires
            self@.wf(),
        ensures
            match data {
                Some(data) => self@.holds_shared(guard.spec_ticket()) && *data == self@.data,
                None => !self@.holds_shared(guard.spec_ticket()),
            },
    {
        if self.holds_read(guard) {
            Some(&self.data)
        } else {
            None
        }
    }

    /// The data, open to change, for a writer that holds the lock; `None` for
    /// one that does not hold it.
    pub fn get_mut(&mut self, guard: &PushLockWriteGuard) -> (data: Option<&mut T>)
        ensures
            match data {
                Some(data) => old(self)@.holds_exclusive(guard.spec_ticket()) && *data == old(
                    self,
                )@.data && final(self)@ == (PushLockView { data: *final(data), ..old(self)@ }),
                None => !old(self)@.holds_exclusive(guard.spec_ticket()) && final(self)@ == old(
                    self,
                )@,
            },
    {
        if self.holds_write(guard) {
            Some(&mut self.data)
        } else {
            None
        }
    }

    /// Lets go for a reader: of the lock if it held it, of its place in the
    /// queue if it waited. Then the queue is served. The guard is used up.
    pub fn release_read(&mut self, guard: PushLockReadGuard)
        requires
            old(self)@.wf(),
        ensures
            final(self)@ == old(self)@.released_shared(guard.spec_ticket()),
            final(self)@.wf(),
    {
        let waiter = Waiter { ticket: guard.ticket, exclusive: false };
        match position(&self.shared, guard.ticket) {
            Some(i) => {
                proof {
                    lemma_holder_does_not_wait(self@, i as int, waiter);
                    lemma_without_holder(self@, i as int);
                }
                self.shared.remove(i);
            },
            None => match place_in_queue(&self.queue, waiter) {
                Some(i) => {
                    proof {
                        lemma_without_waiter(self@, i as int);
                    }
                    self.queue.remove(i);
                },
                None => {},
            },
        }
        self.serve_queue();
    }

    /// Lets go for a writer: of the lock if it held it, of its place in the
    /// queue if it waited. Then the queue is served. The guard is used up.
    pub fn release_write(&mut self, guard: PushLockWriteGuard)
        requires
            old(self)@.wf(),
        ensures
            final(self)@ == old(self)@.released_exclusive(guard.spec_ticket()),
            final(self)@.wf(),
    {
        let waiter = Waiter { ticket: guard.ticket, exclusive: true };
        if self.holds_write(&guard) {
            proof {
                assert(!self@.queue.contains(waiter)) by {
                    if self@.queue.contains(waiter) {
                        let j = self@.queue.index_of(waiter);
                        assert(guard.ticket < self@.queue[j].ticket);
                    }
                }
            }
            self.exclusive = None;
        } else {
            match place_in_queue(&self.queue, waiter) {
                Some(i) => {
                    proof {
                        lemma_without_waiter(self@, i as int);
                    }
                    self.queue.remove(i);
                },
                None => {},
            }
        }
        self.serve_queue();
    }

    /// Serves the queue.
    fn serve_queue(&mut self)
        requires
            old(self)@.wf_unsettled(),
        ensures
            final(self)@ == old(self)@.admitted(),
            final(self)@.wf(),
    {
        proof {
            lemma_admitted_wf(self@);
        }
        loop
            invariant
                self@.wf_unsettled(),
                self@.admitted() == old(self)@.admitted(),
            ensures
                self@ == old(self)@.admitted(),
            decreases self.queue@.len(),
        {
            if self.queue.len() == 0 {
                break ;
            }
            let head = self.queue[0];
            if head.exclusive {
                if self.exclusive.is_none() && self.shared.len() == 0 {
                    self.exclusive = Some(head.ticket);
                    self.queue.remove(0);
                }
                break ;
            } else if self.exclusive.is_none() {
                proof {
                    lemma_step_unsettled(self@);
                }
                self.shared.push(head.ticket);
                self.queue.remove(0);
            } else {
                break ;
            }
        }
    }
}

/// Granting the lock to a reader at the head of the queue keeps the order of
/// the tickets.
proof fn lemma_step_unsettled<T>(state: PushLockView<T>)
    requires
        state.wf_unsettled(),
        state.queue.len() > 0,
        !state.queue[0].exclusive,
        state.exclusive is None,
    ensures
        (PushLockView {
            shared: state.shared.push(state.queue[0].ticket),
            queue: state.queue.remove(0),
            ..state
        }).wf_unsettled(),
{
    let step = PushLockView {
        shared: state.shared.push(state.queue[0].ticket),
        queue: state.queue.remove(0),
        ..state
    };
    assert forall|i: int| 0 <= i < step.queue.len() implies (#[trigger] step.queue[i])
        == state.queue[i + 1] by {}
    assert(step.issued()) by {
        assert forall|i: int| 0 <= i < step.queue.len() implies (#[trigger] step.queue[i]).ticket
            < step.next_ticket by {
            assert(step.queue[i] == state.queue[i + 1]);
        }
    }
    assert(step.ordered()) by {
        assert forall|i: int, j: int| 0 <= i < j < step.queue.len() implies (
        #[trigger] step.queue[i]).ticket < (#[trigger] step.queue[j]).ticket by {
            assert(step.queue[i] == state.queue[i + 1]);
            assert(step.queue[j] == state.queue[j + 1]);
        }
        assert forall|i: int, j: int| 0 <= i < j < step.shared.len() implies
            #[trigger] step.shared[i] < #[trigger] step.shared[j] by {
            if j == state.shared.len() {
                assert(state.shared[i] < state.queue[0].ticket);
            }
        }
    }
    assert(step.first_come_first_served()) by {
        assert forall|i: int, j: int|
            0 <= i < step.shared.len() && 0 <= j < step.queue.len() implies
            #[trigger] step.shared[i] < (#[trigger] step.queue[j]).ticket by {
            assert(step.queue[j] == state.queue[j + 1]);
            if i == state.shared.len() {
                assert(state.queue[0].ticket < state.queue[j + 1].ticket);
            } else {
                assert(state.shared[i] < state.queue[j + 1].ticket);
            }
        }
    }
}

/// A reader that holds the lock does not wait for it as well.
proof fn lemma_holder_does_not_wait<T>(state: PushLockView<T>, i: int, waiter: Waiter)
    requires
        state.wf_unsettled(),
        0 <= i < state.shared.len(),
        waiter.ticket == state.shared[i],
    ensures
        !state.queue.contains(waiter),
{
    if state.queue.contains(waiter) {
        let j = state.queue.index_of(waiter);
        assert(state.shared[i] < state.queue[j].ticket);
    }
}

/// Taking a reader from those that hold the lock keeps the order of the
/// tickets.
proof fn lemma_without_holder<T>(state: PushLockView<T>, i: int)
    requires
        state.wf_unsettled(),
        0 <= i < state.shared.len(),
    ensures
        (PushLockView { shared: state.shared.remove(i), ..state }).wf_unsettled(),
{
    let rest = PushLockView { shared: state.shared.remove(i), ..state };
    assert forall|k: int| 0 <= k < rest.shared.len() implies #[trigger] rest.shared[k] == (if k
        < i {
        state.shared[k]
    } else {
        state.shared[k + 1]
    }) by {}
    assert(rest.issued());
    assert(rest.ordered()) by {
        assert forall|a: int, b: int| 0 <= a < b < rest.shared.len() implies
            #[trigger] rest.shared[a] < #[trigger] rest.shared[b] by {
            let a0 = if a < i {
                a
            } else {
                a + 1
            };
            let b0 = if b < i {
                b
            } else {
                b + 1
            };
            assert(state.shared[a0] < state.shared[b0]);
        }
    }
    assert(rest.first_come_first_served()) by {
        assert forall|a: int, j: int|
            0 <= a < rest.shared.len() && 0 <= j < rest.queue.len() implies
            #[trigger] rest.shared[a] < (#[trigger] rest.queue[j]).ticket by {
            let a0 = if a < i {
                a
            } else {
                a + 1
            };
            assert(state.shared[a0] < state.queue[j].ticket);
        }
    }
}

/// Taking a request from the queue keeps the order of the tickets.
proof fn lemma_without_waiter<T>(state: PushLockView<T>, i: int)
    requires
        state.wf_unsettled(),
        0 <= i < state.queue.len(),
    ensures
        (PushLockView { queue: state.queue.remove(i), ..state }).wf_unsettled(),
{
    let rest = PushLockView { queue: state.queue.remove(i), ..state };
    assert forall|k: int| 0 <= k < rest.queue.len() implies #[trigger] rest.queue[k] == (if k
        < i {
        state.queue[k]
    } else {
        state.queue[k + 1]
    }) by {}
    assert(rest.issued()) by {
        assert forall|k: int| 0 <= k < rest.queue.len() implies (#[trigger] rest.queue[k]).ticket
            < rest.next_ticket by {
            let k0 = if k < i {
                k
            } else {
                k + 1
            };
            assert(state.queue[k0].ticket < state.next_ticket);
        }
    }
    assert(rest.ordered()) by {
        assert forall|a: int, b: int| 0 <= a < b < rest.queue.len() implies (
        #[trigger] rest.queue[a]).ticket < (#[trigger] rest.queue[b]).ticket by {
            let a0 = if a < i {
                a
            } else {
                a + 1
            };
            let b0 = if b < i {
                b
            } else {
                b + 1
            };
            assert(state.queue[a0].ticket < state.queue[b0].ticket);
        }
    }
    assert(rest.first_come_first_served()) by {
        assert forall|a: int, j: int|
            0 <= a < rest.shared.len() && 0 <= j < rest.queue.len() implies
            #[trigger] rest.shared[a] < (#[trigger] rest.queue[j]).ticket by {
            let j0 = if j < i {
                j
            } else {
                j + 1
            };
            assert(state.shared[a] < state.queue[j0].ticket);
        }
        if let Some(ticket) = rest.exclusive {
            assert forall|j: int| 0 <= j < rest.queue.len() implies ticket < (
            #[trigger] rest.queue[j]).ticket by {
                let j0 = if j < i {
                    j
                } else {
                    j + 1
                };
                assert(ticket < state.queue[j0].ticket);
            }
        }
    }
}

impl<T> PushLockView<T> {
    /// The writer with this ticket waits for the lock or holds it.
    pub open spec fn engaged_exclusive(self, ticket: u64) -> bool {
        self.waits_exclusive(ticket) || self.holds_exclusive(ticket)
    }

    /// The reader with this ticket waits for the lock or holds it.
    pub open spec fn engaged_shared(self, ticket: u64) -> bool {
        self.waits_shared(ticket) || self.holds_shared(ticket)
    }

    /// The state after `count` readers in a row have asked for the lock.
    pub open spec fn requested_shared_times(self, count: nat) -> PushLockView<T>
        decreases count,
    {
        if count == 0 {
            self
        } else {
            self.requested_shared().requested_shared_times((count - 1) as nat)
        }
    }
}

/// A request for a reader leaves the lock in a state in which it can rest.
pub proof fn lemma_requested_shared_wf<T>(state: PushLockView<T>)
    requires
        state.wf(),
        state.next_ticket < u64::MAX,
    ensures
        state.requested_shared().wf(),
{
    let next = state.requested_shared();
    if state.exclusive is None && state.queue.len() == 0 {
        assert(next.issued());
        assert(next.ordered());
    } else {
        assert(next.issued());
        assert(next.ordered());
        assert(next.first_come_first_served());
        assert(next.queue[0] == if state.queue.len() > 0 {
            state.queue[0]
        } else {
            Waiter { ticket: state.next_ticket, exclusive: false }
        });
    }
}

/// A request for a writer leaves the lock in a state in which it can rest.
pub proof fn lemma_requested_exclusive_wf<T>(state: PushLockView<T>)
    requires
        state.wf(),
        state.next_ticket < u64::MAX,
    ensures
        state.requested_exclusive().wf(),
{
    let next = state.requested_exclusive();
    if state.exclusive is None && state.shared.len() == 0 && state.queue.len() == 0 {
    } else {
        assert(next.issued());
        assert(next.ordered());
        assert(next.first_come_first_served());
        assert(next.queue[0] == if state.queue.len() > 0 {
            state.queue[0]
        } else {
            Waiter { ticket: state.next_ticket, exclusive: true }
        });
    }
}

/// A release leaves the lock in a state in which it can rest.
pub proof fn lemma_released_wf<T>(state: PushLockView<T>, ticket: u64)
    requires
        state.wf(),
    ensures
        state.released_shared(ticket).wf(),
        state.released_exclusive(ticket).wf(),
{
    let reader = Waiter { ticket, exclusive: false };
    let writer = Waiter { ticket, exclusive: true };
    let after_reader = PushLockView {
        shared: without(state.shared, ticket),
        queue: without_waiter(state.queue, reader),
        ..state
    };
    if state.shared.contains(ticket) {
        let i = state.shared.index_of(ticket);
        lemma_holder_does_not_wait(state, i, reader);
        lemma_without_holder(state, i);
    } else if state.queue.contains(reader) {
        lemma_without_waiter(state, state.queue.index_of(reader));
    }
    lemma_admitted_wf(after_reader);
    let after_writer = PushLockView {
        exclusive: if state.exclusive == Some(ticket) {
            None
        } else {
            state.exclusive
        },
        queue: without_waiter(state.queue, writer),
        ..state
    };
    if state.queue.contains(writer) {
        lemma_without_waiter(state, state.queue.index_of(writer));
    }
    assert(after_writer.wf_unsettled());
    lemma_admitted_wf(after_writer);
}

/// Without a writer nobody waits: readers are never kept waiting by readers.
pub proof fn lemma_writer_free_queue_empty<T>(state: PushLockView<T>)
    requires
        state.wf(),
        state.writer_free(),
    ensures
        state.queue.len() == 0,
{
    if state.queue.len() > 0 {
        assert(!state.queue[0].exclusive);
    }
}

/// Where no writer holds the lock or waits for it, a reader that asks for the
/// lock holds it at once, together with all the readers that held it before.
pub proof fn lemma_readers_share<T>(state: PushLockView<T>)
    requires
        state.wf(),
        state.writer_free(),
        state.next_ticket < u64::MAX,
    ensures
        state.requested_shared().holds_shared(state.next_ticket),
        state.requested_shared().shared == state.shared.push(state.next_ticket),
        state.requested_shared().writer_free(),
        state.requested_shared().wf(),
        forall|ticket: u64|
            state.holds_shared(ticket) ==> state.requested_shared().holds_shared(ticket),
{
    lemma_writer_free_queue_empty(state);
    lemma_requested_shared_wf(state);
    let next = state.requested_shared();
    assert(next.shared[state.shared.len() as int] == state.next_ticket);
    assert forall|ticket: u64| state.holds_shared(ticket) implies next.holds_shared(ticket) by {
        let i = choose|i: int| 0 <= i < state.shared.len() && state.shared[i] == ticket;
        assert(next.shared[i] == ticket);
    }
}

/// Any number of readers hold the lock together where there is no writer:
/// of `count` readers that ask for the lock one after the other, each holds
/// it at once and keeps holding it while the others arrive.
pub proof fn lemma_many_readers<T>(state: PushLockView<T>, count: nat)
    requires
        state.wf(),
        state.writer_free(),
        state.next_ticket + count <= u64::MAX,
    ensures
        state.requested_shared_times(count).wf(),
        state.requested_shared_times(count).writer_free(),
        state.requested_shared_times(count).shared.len() == state.shared.len() + count,
        state.requested_shared_times(count).next_ticket == state.next_ticket + count,
        forall|ticket: u64|
            state.holds_shared(ticket) ==> state.requested_shared_times(count).holds_shared(
                ticket,
            ),
        forall|k: nat|
            k < count ==> state.requested_shared_times(count).holds_shared(
                #[trigger] ((state.next_ticket + k) as u64),
            ),
    decreases count,
{
    if count > 0 {
        lemma_readers_share(state);
        let next = state.requested_shared();
        lemma_many_readers(next, (count - 1) as nat);
        let last = state.requested_shared_times(count);
        assert(last == next.requested_shared_times((count - 1) as nat));
        assert forall|k: nat| k < count implies last.holds_shared(
            #[trigger] ((state.next_ticket + k) as u64),
        ) by {
            if k == 0 {
                assert(next.holds_shared(state.next_ticket));
            } else {
                let j = (k - 1) as nat;
                assert(last.holds_shared((next.next_ticket + j) as u64));
            }
        }
    }
}

/// Where a writer holds the lock or waits for it, a reader that asks for the
/// lock does not get it: it waits.
pub proof fn lemma_reader_waits_behind_writer<T>(state: PushLockView<T>)
    requires
        state.wf(),
        !state.writer_free(),
        state.next_ticket < u64::MAX,
    ensures
        !state.requested_shared().holds_shared(state.next_ticket),
        state.requested_shared().waits_shared(state.next_ticket),
{
    let next = state.requested_shared();
    assert(next.queue[state.queue.len() as int] == Waiter {
        ticket: state.next_ticket,
        exclusive: false,
    });
    if next.holds_shared(state.next_ticket) {
        let i = choose|i: int| 0 <= i < next.shared.len() && next.shared[i] == state.next_ticket;
        assert(state.shared[i] < state.next_ticket);
    }
}

/// A reader that asked for the lock after a writer does not hold the lock
/// for as long as that writer waits for the lock or holds it.
pub proof fn lemma_writer_before_later_reader<T>(state: PushLockView<T>, writer: u64, reader: u64)
    requires
        state.wf(),
        state.engaged_exclusive(writer),
        writer < reader,
    ensures
        !state.holds_shared(reader),
{
    if state.holds_shared(reader) {
        let i = choose|i: int| 0 <= i < state.shared.len() && state.shared[i] == reader;
        if state.waits_exclusive(writer) {
            let j = state.queue.index_of(Waiter { ticket: writer, exclusive: true });
            assert(state.shared[i] < state.queue[j].ticket);
        }
    }
}

/// Serving the queue loses no writer: one that waited waits still or holds
/// the lock.
proof fn lemma_admitted_keeps_writer<T>(state: PushLockView<T>, writer: u64)
    requires
        state.engaged_exclusive(writer),
    ensures
        state.admitted().engaged_exclusive(writer),
    decreases state.queue.len(),
{
    let waiter = Waiter { ticket: writer, exclusive: true };
    if state.queue.len() == 0 {
    } else if state.queue[0].exclusive {
        if state.exclusive is None && state.shared.len() == 0 {
            if state.waits_exclusive(writer) {
                let j = state.queue.index_of(waiter);
                if j > 0 {
                    assert(state.queue.remove(0)[j - 1] == waiter);
                }
            }
        }
    } else if state.exclusive is None {
        let step = PushLockView {
            shared: state.shared.push(state.queue[0].ticket),
            queue: state.queue.remove(0),
            ..state
        };
        if state.waits_exclusive(writer) {
            let j = state.queue.index_of(waiter);
            assert(j > 0);
            assert(step.queue[j - 1] == waiter);
        }
        lemma_admitted_keeps_writer(step, writer);
    }
}

/// A writer leaves the lock by its own release only: a request of another
/// and the release of another leave it waiting for the lock or holding it.
pub proof fn lemma_writer_stays<T>(state: PushLockView<T>, writer: u64, other: u64)
    requires
        state.engaged_exclusive(writer),
        other != writer,
    ensures
        state.requested_shared().engaged_exclusive(writer),
        state.requested_exclusive().engaged_exclusive(writer),
        state.released_shared(other).engaged_exclusive(writer),
        state.released_exclusive(other).engaged_exclusive(writer),
{
    let waiter = Waiter { ticket: writer, exclusive: true };
    if state.waits_exclusive(writer) {
        let j = state.queue.index_of(waiter);
        assert(state.requested_shared().queue.len() > 0 ==> state.requested_shared().queue[j]
            == waiter);
        assert(state.requested_exclusive().queue.len() > 0 ==> state.requested_exclusive().queue[j]
            == waiter);
        assert(state.exclusive is Some || state.shared.len() > 0 || state.queue.len() > 0);
    }
    let reader_gone = PushLockView {
        shared: without(state.shared, other),
        queue: without_waiter(state.queue, Waiter { ticket: other, exclusive: false }),
        ..state
    };
    let writer_gone = PushLockView {
        exclusive: if state.exclusive == Some(other) {
            None
        } else {
            state.exclusive
        },
        queue: without_waiter(state.queue, Waiter { ticket: other, exclusive: true }),
        ..state
    };
    if state.waits_exclusive(writer) {
        lemma_without_other(state.queue, Waiter { ticket: other, exclusive: false }, waiter);
        lemma_without_other(state.queue, Waiter { ticket: other, exclusive: true }, waiter);
    }
    lemma_admitted_keeps_writer(reader_gone, writer);
    lemma_admitted_keeps_writer(writer_gone, writer);
}

/// A request that leaves the queue takes no other request with it.
proof fn lemma_without_other(queue: Seq<Waiter>, gone: Waiter, other: Waiter)
    requires
        gone != other,
        queue.contains(other),
    ensures
        without_waiter(queue, gone).contains(other),
{
    if queue.contains(gone) {
        let i = queue.index_of(gone);
        let j = queue.index_of(other);
        if j < i {
            assert(queue.remove(i)[j] == other);
        } else {
            assert(queue.remove(i)[j - 1] == other);
        }
    }
}

} // verus!
