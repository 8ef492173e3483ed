//! Tickets: the numbers that the requests for a lock draw, in the order in
//! which they come.

use vstd::prelude::*;

verus! {

/// The place of a ticket in an ascending sequence of tickets.
pub(crate) fn position(tickets: &Vec<u64>, ticket: u64) -> (place: Option<usize>)
    requires
        forall|i: int, j: int|
            0 <= i < j < tickets@.len() ==> #[trigger] tickets@[i] < #[trigger] tickets@[j],
    ensures
        match place {
            Some(i) => i < tickets@.len() && tickets@[i as int] == ticket && tickets@.contains(
                ticket,
            ) && tickets@.index_of(ticket) == i,
            None => !tickets@.contains(ticket),
        },
{
    let mut i: usize = 0;
    while i < tickets.len()
        invariant
            i <= tickets@.len(),
            forall|k: int| 0 <= k < i ==> tickets@[k] != ticket,
            forall|a: int, b: int|
                0 <= a < b < tickets@.len() ==> #[trigger] tickets@[a] < #[trigger] tickets@[b],
        decreases tickets@.len() - i,
    {
        if tickets[i] == ticket {
            proof {
                let found = tickets@.index_of(ticket);
                assert(tickets@.contains(ticket));
                if found < i as int {
                    assert(tickets@[found] < tickets@[i as int]);
                } else if found > i as int {
                    assert(tickets@[i as int] < tickets@[found]);
                }
            }
            return Some(i);
        }
        i = i + 1;
    }
    None
}

} // verus!
