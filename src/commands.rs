use vstd::prelude::*;

use std::collections::VecDeque;

use crate::direction::{are_opposite, Direction};

verus! {

broadcast use vstd::std_specs::vecdeque::group_vec_dequeue_axioms;

/// The queue after `d` is offered: it is appended unless it repeats the
/// most recently appended direction.
pub open spec fn pushed(q: Seq<Direction>, d: Direction) -> Seq<Direction> {
    if q.last() == d {
        q
    } else {
        q.push(d)
    }
}

/// The direction taken for the next step: always the front entry.
pub open spec fn next_of(q: Seq<Direction>) -> Direction {
    q[0]
}

/// The queue after a direction is taken: the front entry leaves unless it
/// is the only one.
pub open spec fn after_take(q: Seq<Direction>) -> Seq<Direction> {
    if q.len() == 1 {
        q
    } else {
        q.drop_first()
    }
}

/// No two neighbouring entries are equal or opposite.
pub open spec fn smooth(q: Seq<Direction>) -> bool {
    forall|i: int|
        #![trigger q[i]]
        0 <= i < q.len() - 1 ==> q[i] != q[i + 1] && !are_opposite(q[i], q[i + 1])
}

/// Buffers direction changes between input polling and simulation steps.
#[derive(Debug)]
pub struct CommandsQueue {
    queue: VecDeque<Direction>,
}

impl View for CommandsQueue {
    type V = Seq<Direction>;

    closed spec fn view(&self) -> Seq<Direction> {
        self.queue@
    }
}

impl CommandsQueue {
    /// Never empty.
    pub open spec fn wf(&self) -> bool {
        self@.len() >= 1
    }

    /// A queue holding the default direction, `RIGHT`.
    pub fn new() -> (r: CommandsQueue)
        ensures
            r@ == seq![Direction::RIGHT],
            r.wf(),
    {
        let mut queue = VecDeque::with_capacity(2);
        queue.push_back(Direction::RIGHT);
        CommandsQueue { queue }
    }

    /// Appends `direction` unless it equals the last entry.
    pub fn push_direction(&mut self, direction: Direction)
        requires
            old(self).wf(),
        ensures
            final(self).wf(),
            final(self)@ == pushed(old(self)@, direction),
    {
        if self.get_last() != direction {
            self.queue.push_back(direction);
        }
    }

    /// Takes the direction for the next step: the front entry, which is
    /// removed unless it is the last one left.
    pub fn get_direction(&mut self) -> (r: Direction)
        requires
            old(self).wf(),
        ensures
            final(self).wf(),
            r == next_of(old(self)@),
            final(self)@ == after_take(old(self)@),
    {
        if self.queue.len() == 1 {
            return self.queue[0];
        }
        self.queue.pop_front().unwrap()
    }

    /// The most recently appended direction.
    pub fn get_last(&self) -> (r: Direction)
        requires
            self.wf(),
        ensures
            r == self@.last(),
    {
        self.queue[self.queue.len() - 1]
    }
}

/// Turns are taken in the order they were issued, one per step: when `d`, the
/// default direction of a new queue, and then a turn `d2` that does not
/// reverse it are offered, the first step goes in `d` and the next in `d2`.
pub proof fn lemma_turns_in_order(d: Direction, d2: Direction)
    requires
        d == Direction::RIGHT,
        !are_opposite(d, d2),
    ensures
        ({
            let q = pushed(pushed(seq![Direction::RIGHT], d), d2);
            next_of(q) == d && next_of(after_take(q)) == d2
        }),
{
    let q1 = pushed(seq![Direction::RIGHT], d);
    assert(q1 =~= seq![Direction::RIGHT]);
}

/// From a queue with one entry `c`, offering `d` and then `d2`, each differing
/// from the one before, gives three steps in `c`, `d` and `d2`, and the last
/// direction stays.
pub proof fn lemma_queue_is_first_in_first_out(c: Direction, d: Direction, d2: Direction)
    requires
        d != c,
        d2 != d,
    ensures
        ({
            let q = pushed(pushed(seq![c], d), d2);
            let q1 = after_take(q);
            let q2 = after_take(q1);
            &&& next_of(q) == c
            &&& next_of(q1) == d
            &&& next_of(q2) == d2
            &&& next_of(after_take(q2)) == d2
        }),
{
    let q = pushed(pushed(seq![c], d), d2);
    assert(q =~= seq![c, d, d2]);
    assert(after_take(q) =~= seq![d, d2]);
    assert(after_take(after_take(q)) =~= seq![d2]);
}

} // verus!
