//! The session-scoped source of request ids.

use vstd::prelude::*;

verus! {

/// The largest request id: ids stay below 2^53, so that every codec can
/// carry them exactly.
pub const MAX_REQUEST_ID: i64 = 9007199254740991;

/// A counter that hands out request ids from 1 upwards, each once.
#[derive(Debug)]
pub struct IdGenerator {
    next: i64,
}

impl IdGenerator {
    #[verifier::type_invariant]
    closed spec fn in_range(&self) -> bool {
        1 <= self.next <= MAX_REQUEST_ID + 1
    }

    /// The id that the next call of `next_id` hands out; one past
    /// `MAX_REQUEST_ID` when none is left.
    pub closed spec fn peek(&self) -> int {
        self.next as int
    }

    /// Whether every id has been handed out.
    pub open spec fn exhausted(&self) -> bool {
        self.peek() > MAX_REQUEST_ID
    }

    /// A generator that has handed out nothing yet.
    pub fn new() -> (g: IdGenerator)
        ensures
            g.peek() == 1,
    {
        IdGenerator { next: 1 }
    }

    /// A generator whose first id is `first`; `None` unless `first` is a
    /// request id or one past the largest.
    pub fn starting_at(first: i64) -> (r: Option<IdGenerator>)
        ensures
            match r {
                Some(g) => 1 <= first <= MAX_REQUEST_ID + 1 && g.peek() == first,
                None => first < 1 || first > MAX_REQUEST_ID + 1,
            },
    {
        if 1 <= first && first <= MAX_REQUEST_ID + 1 {
            Some(IdGenerator { next: first })
        } else {
            None
        }
    }

    /// The id that the next call of `next_id` hands out, which is one past
    /// `MAX_REQUEST_ID` when none is left.
    pub fn peek_next(&self) -> (id: i64)
        ensures
            id == self.peek(),
            1 <= id <= MAX_REQUEST_ID + 1,
    {
        proof {
            use_type_invariant(self);
        }
        self.next
    }

    /// Hands out the next id, or `None` once all ids are used.
    pub fn next_id(&mut self) -> (r: Option<i64>)
        ensures
            match r {
                Some(id) => {
                    &&& !old(self).exhausted()
                    &&& id == old(self).peek()
                    &&& 1 <= id <= MAX_REQUEST_ID
                    &&& final(self).peek() == old(self).peek() + 1
                },
                None => old(self).exhausted() && final(self).peek() == old(self).peek(),
            },
    {
        proof {
            use_type_invariant(&*self);
        }
        if self.next > MAX_REQUEST_ID {
            None
        } else {
            let id: i64 = self.next;
            self.next = id + 1;
            Some(id)
        }
    }
}

/// The id handed out by the `n`-th call (counted from 0) on a generator
/// whose next id is `start`.
pub open spec fn nth_id(start: int, n: nat) -> int {
    start + n
}

/// Ids are handed out in strictly increasing order: of two calls on one
/// generator, the later one gets the larger id, so no id comes twice.
pub proof fn lemma_ids_strictly_increasing(start: int, earlier: nat, later: nat)
    requires
        earlier < later,
    ensures
        nth_id(start, earlier) < nth_id(start, later),
        nth_id(start, earlier) != nth_id(start, later),
{
}

} // verus!
