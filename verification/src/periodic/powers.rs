//! Which power of the base each item of a powers sequence is, and how the
//! four-slot cache behind it advances.
//!
//! The sequence yields `base^start, base^(start+1), ...`. The first four items
//! come from four cached slots; after that, item `k` comes from slot `k % 4`,
//! which advances by `base^4` each time it is used. The floating-point values
//! live with the caller; this cursor tracks the exponent each slot holds and
//! proves that item `k` is `base^(start + k)`.

use vstd::prelude::*;

verus! {

/// What the caller does for the next item.
#[derive(Clone, Copy, Debug, PartialEq, Eq, Structural)]
pub enum PowerStep {
    /// The sequence is over.
    Done,
    /// Yield the slot as it is.
    Cached(usize),
    /// Multiply the slot by `base^4`, store it, and yield it.
    Advanced(usize),
}

impl PowerStep {
    /// The slot a step reads, `-1` when the sequence is over.
    pub open spec fn slot(self) -> int {
        match self {
            PowerStep::Done => -1,
            PowerStep::Cached(j) => j as int,
            PowerStep::Advanced(j) => j as int,
        }
    }
}

/// The position in a powers sequence and the exponents its cache slots hold.
pub struct PowersCursor {
    start: usize,
    index: usize,
    total: usize,
    slots: Ghost<Seq<int>>,
}

/// How many times slot `j` has advanced once `index` items were yielded.
pub open spec fn advances(index: int, j: int) -> int {
    if index <= j {
        0
    } else {
        (index - 1 - j) / 4
    }
}

impl PowersCursor {
    #[verifier::type_invariant]
    spec fn inv(self) -> bool {
        &&& self.index <= self.total
        &&& self.slots@.len() == 4
        &&& forall|j: int|
            0 <= j < 4 ==> #[trigger] self.slots@[j] == self.start + j + 4 * advances(self.index as int, j)
    }

    /// The exponent of the first item.
    pub closed spec fn start(self) -> int {
        self.start as int
    }

    /// How many items were yielded.
    pub closed spec fn position(self) -> int {
        self.index as int
    }

    /// How many items the sequence has.
    pub closed spec fn count(self) -> int {
        self.total as int
    }

    /// The exponent cache slot `j` holds.
    pub closed spec fn slot_exponent(self, j: int) -> int {
        self.slots@[j]
    }

    /// A sequence of `total_count` powers starting at `base^start_power`, its
    /// slots holding `base^start_power` to `base^(start_power + 3)`.
    pub fn new(start_power: usize, total_count: usize) -> (cursor: Self)
        ensures
            cursor.start() == start_power,
            cursor.position() == 0,
            cursor.count() == total_count,
            forall|j: int| 0 <= j < 4 ==> #[trigger] cursor.slot_exponent(j) == start_power + j,
    {
        let ghost slots = seq![start_power as int, start_power + 1, start_power + 2, start_power + 3];
        PowersCursor { start: start_power, index: 0, total: total_count, slots: Ghost(slots) }
    }

    /// The next item: from its cached slot among the first four, else from
    /// slot `position % 4` advanced by `base^4`. Either way the slot then
    /// holds `base^(start + position)`, the item yielded.
    pub fn next(&mut self) -> (step: PowerStep)
        ensures
            final(self).start() == old(self).start(),
            final(self).count() == old(self).count(),
            old(self).position() >= old(self).count() ==> step == PowerStep::Done && final(self).position()
                == old(self).position() && forall|j: int| 0 <= j < 4 ==> #[trigger] final(self).slot_exponent(j)
                == old(self).slot_exponent(j),
            old(self).position() < old(self).count() ==> {
                &&& final(self).position() == old(self).position() + 1
                &&& step == (if old(self).position() < 4 {
                    PowerStep::Cached(old(self).position() as usize)
                } else {
                    PowerStep::Advanced((old(self).position() % 4) as usize)
                })
                &&& step matches PowerStep::Cached(j) ==> final(self).slot_exponent(j as int)
                    == old(self).slot_exponent(j as int)
                &&& step matches PowerStep::Advanced(j) ==> final(self).slot_exponent(j as int)
                    == old(self).slot_exponent(j as int) + 4
                &&& final(self).slot_exponent(step.slot()) == old(self).start() + old(self).position()
                &&& forall|k: int| 0 <= k < 4 && k != step.slot() ==> #[trigger] final(self).slot_exponent(k)
                    == old(self).slot_exponent(k)
            },
    {
        proof {
            use_type_invariant(&*self);
        }
        if self.index >= self.total {
            return PowerStep::Done;
        }
        let index = self.index;
        let ghost old_slots = self.slots@;
        let (step, slots) = if index < 4 {
            (PowerStep::Cached(index), Ghost(old_slots))
        } else {
            let j = index % 4;
            (PowerStep::Advanced(j), Ghost(old_slots.update(j as int, old_slots[j as int] + 4)))
        };
        proof {
            assert forall|k: int| 0 <= k < 4 implies #[trigger] slots@[k] == self.start + k + 4
                * advances(index + 1, k) by {
                if index >= 4 && k == index % 4 {
                    assert(advances(index as int, k) + 1 == advances(index + 1, k));
                } else {
                    assert(advances(index as int, k) == advances(index + 1, k));
                }
            }
        }
        *self = PowersCursor { start: self.start, index: index + 1, total: self.total, slots };
        step
    }

    /// How many items are left.
    pub fn remaining(&self) -> (left: usize)
        ensures
            left == self.count() - self.position(),
    {
        proof {
            use_type_invariant(self);
        }
        self.total - self.index
    }
}

} // verus!
