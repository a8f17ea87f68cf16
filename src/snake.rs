use vstd::prelude::*;

use std::collections::VecDeque;

use crate::commands::{after_take, next_of, pushed, smooth, CommandsQueue};
use crate::direction::{are_opposite, reverse, Direction};
use crate::point::{can_step, in_grid, neighbour, Point};
use crate::FIELD_CELLS;

verus! {

broadcast use vstd::std_specs::vecdeque::group_vec_dequeue_axioms;

/// The body after one step in direction `d`: a new head in front and, when
/// `drop_tail` holds, the last cell removed.
pub open spec fn advanced(body: Seq<Point>, d: Direction, drop_tail: bool) -> Seq<Point> {
    let grown = seq![neighbour(body[0], d)] + body;
    if drop_tail {
        grown.drop_last()
    } else {
        grown
    }
}

/// The head occupies one of the other cells of the body.
pub open spec fn hits_self(body: Seq<Point>) -> bool {
    exists|i: int| 1 <= i < body.len() && #[trigger] body[i] == body[0]
}

/// The head has crossed the field's edge that lies ahead in direction `d`.
pub open spec fn hits_edge(head: Point, d: Direction) -> bool {
    match d {
        Direction::UP => head.y == FIELD_CELLS,
        Direction::RIGHT => head.x == FIELD_CELLS,
        Direction::DOWN => head.y < 0,
        Direction::LEFT => head.x < 0,
    }
}

/// The collision rule: the body bites itself or leaves the field ahead.
pub open spec fn collides(body: Seq<Point>, d: Direction) -> bool {
    hits_self(body) || hits_edge(body[0], d)
}

/// The turn that the pressed keys ask for, given the last queued direction:
/// the first of up, right, left, down that is pressed and does not reverse it.
pub open spec fn requested_turn(last: Direction, keys: Keys) -> Option<Direction> {
    if keys.up && last != Direction::DOWN {
        Some(Direction::UP)
    } else if keys.right && last != Direction::LEFT {
        Some(Direction::RIGHT)
    } else if keys.left && last != Direction::RIGHT {
        Some(Direction::LEFT)
    } else if keys.down && last != Direction::UP {
        Some(Direction::DOWN)
    } else {
        None
    }
}

/// The pending turns after the keys of one frame are handled.
pub open spec fn queued(q: Seq<Direction>, keys: Keys) -> Seq<Direction> {
    match requested_turn(q.last(), keys) {
        Some(d) => pushed(q, d),
        None => q,
    }
}

/// The direction keys held down during one frame.
#[derive(Clone, Copy, Debug, PartialEq, Eq, Structural)]
pub struct Keys {
    pub up: bool,
    pub right: bool,
    pub left: bool,
    pub down: bool,
}

impl Keys {
    /// No key pressed.
    pub fn none() -> (r: Keys)
        ensures
            !r.up && !r.right && !r.left && !r.down,
    {
        Keys { up: false, right: false, left: false, down: false }
    }
}

/// The snake: its cells from head to tail, the committed direction, the
/// queue of pending turns, and whether the next step drops the tail.
#[derive(Debug)]
pub struct Snake {
    pub body: VecDeque<Point>,
    /// True when the next step removes the tail; false right after eating,
    /// so that the next step grows the body by one cell.
    pub is_hungry: bool,
    pub commands_queue: CommandsQueue,
    pub direction: Direction,
}

impl Snake {
    /// At least two cells; the pending turns and the committed direction
    /// never reverse from one to the next.
    pub open spec fn wf(&self) -> bool {
        &&& self.body@.len() >= 2
        &&& self.commands_queue.wf()
        &&& smooth(self.commands_queue@)
        &&& !are_opposite(self.direction, self.commands_queue@[0])
    }

    /// A two-cell snake with head at (5, 5) and tail at (5, 6), heading right.
    pub fn new() -> (r: Snake)
        ensures
            r.wf(),
            r.body@ == seq![Point { x: 5, y: 5 }, Point { x: 5, y: 6 }],
            r.is_hungry,
            r.direction == Direction::RIGHT,
            r.commands_queue@ == seq![Direction::RIGHT],
    {
        let mut body = VecDeque::new();
        body.push_back(Point::new(5, 5));
        body.push_back(Point::new(5, 6));
        let commands = CommandsQueue::new();
        Snake { body, is_hungry: true, commands_queue: commands, direction: Direction::RIGHT }
    }

    /// The head cell.
    pub fn head(&self) -> (r: &Point)
        requires
            self.wf(),
        ensures
            *r == self.body@[0],
    {
        &self.body[0]
    }

    /// Moves one cell in the committed direction, dropping the tail when hungry.
    pub fn move_body(&mut self)
        requires
            old(self).wf(),
            can_step(old(self).body@[0]),
        ensures
            final(self).wf(),
            final(self).body@ == advanced(old(self).body@, old(self).direction, old(self).is_hungry),
            final(self).is_hungry == old(self).is_hungry,
            final(self).direction == old(self).direction,
            final(self).commands_queue@ == old(self).commands_queue@,
    {
        let new_head = self.body[0].step(self.direction);
        self.body.push_front(new_head);
        if self.is_hungry {
            self.body.pop_back();
        }
        proof {
            let grown = seq![new_head] + old(self).body@;
            if old(self).is_hungry {
                assert(self.body@ =~= grown.drop_last());
            } else {
                assert(self.body@ =~= grown);
            }
        }
    }

    /// Queues the turn that the pressed keys ask for, if any. A key that would
    /// reverse the last queued direction is ignored.
    pub fn process_commands(&mut self, keys: Keys)
        requires
            old(self).wf(),
        ensures
            final(self).wf(),
            final(self).commands_queue@ == queued(old(self).commands_queue@, keys),
            final(self).body@ == old(self).body@,
            final(self).is_hungry == old(self).is_hungry,
            final(self).direction == old(self).direction,
    {
        let last_command = self.commands_queue.get_last();
        if keys.up && last_command != Direction::DOWN {
            self.commands_queue.push_direction(Direction::UP);
            return;
        }
        if keys.right && last_command != Direction::LEFT {
            self.commands_queue.push_direction(Direction::RIGHT);
            return;
        }
        if keys.left && last_command != Direction::RIGHT {
            self.commands_queue.push_direction(Direction::LEFT);
            return;
        }
        if keys.down && last_command != Direction::UP {
            self.commands_queue.push_direction(Direction::DOWN);
            return;
        }
    }

    /// Commits the next queued direction. The new direction never reverses
    /// the previous one.
    pub fn turn_snake(&mut self)
        requires
            old(self).wf(),
        ensures
            final(self).wf(),
            final(self).direction == next_of(old(self).commands_queue@),
            final(self).commands_queue@ == after_take(old(self).commands_queue@),
            !are_opposite(old(self).direction, final(self).direction),
            final(self).body@ == old(self).body@,
            final(self).is_hungry == old(self).is_hungry,
    {
        self.direction = self.commands_queue.get_direction();
        proof {
            let q = old(self).commands_queue@;
            if q.len() > 1 {
                assert(q[0] != q[1] && !are_opposite(q[0], q[1]));
                assert(self.commands_queue@[0] == q[1]);
            }
            assert forall|i: int|
                #![trigger self.commands_queue@[i]]
                0 <= i < self.commands_queue@.len() - 1 implies self.commands_queue@[i]
                != self.commands_queue@[i + 1] && !are_opposite(
                self.commands_queue@[i],
                self.commands_queue@[i + 1],
            ) by {
                if q.len() > 1 {
                    assert(self.commands_queue@[i] == q[i + 1]);
                    assert(self.commands_queue@[i + 1] == q[i + 2]);
                }
            }
        }
    }

    /// Whether the snake has bitten itself or crossed the edge ahead of it.
    pub fn check_collision(&self) -> (r: bool)
        requires
            self.wf(),
        ensures
            r == collides(self.body@, self.direction),
    {
        let head = self.head();
        let n = self.body.len();
        let mut i: usize = 1;
        while i < n
            invariant
                1 <= i <= n,
                n == self.body@.len(),
                *head == self.body@[0],
                forall|j: int| 1 <= j < i ==> #[trigger] self.body@[j] != self.body@[0],
            decreases n - i,
        {
            if self.body[i] == *head {
                return true;
            }
            i = i + 1;
        }
        match self.direction {
            Direction::UP => head.y == FIELD_CELLS,
            Direction::RIGHT => head.x == FIELD_CELLS,
            Direction::DOWN => head.y < 0,
            Direction::LEFT => head.x < 0,
        }
    }
}

/// A key that would reverse the last queued direction is never taken.
pub proof fn lemma_reversal_rejected(last: Direction, keys: Keys)
    ensures
        requested_turn(last, keys) != Some(reverse(last)),
        !are_opposite(queued(seq![last], keys).last(), last),
{
}

/// A step keeps the length of the body when the tail is dropped and adds
/// exactly one cell when it is kept; a two-cell snake that eats once stays at
/// three cells over the steps that follow.
pub proof fn lemma_step_length(body: Seq<Point>, d: Direction, d2: Direction, d3: Direction)
    requires
        body.len() >= 1,
    ensures
        advanced(body, d, true).len() == body.len(),
        advanced(body, d, false).len() == body.len() + 1,
        body.len() == 2 ==> advanced(body, d, true).len() == 2,
        body.len() == 2 ==> advanced(advanced(body, d, false), d2, true).len() == 3,
        body.len() == 2 ==> advanced(advanced(advanced(body, d, false), d2, true), d3, true).len()
            == 3,
{
}

/// The body after one step in each of `dirs`, in order, each dropping the tail.
pub open spec fn walked(body: Seq<Point>, dirs: Seq<Direction>) -> Seq<Point>
    decreases dirs.len(),
{
    if dirs.len() == 0 {
        body
    } else {
        walked(advanced(body, dirs[0], true), dirs.drop_first())
    }
}

/// Steps that drop the tail keep the length of the body, however many.
pub proof fn lemma_walk_keeps_length(body: Seq<Point>, dirs: Seq<Direction>)
    requires
        body.len() >= 1,
    ensures
        walked(body, dirs).len() == body.len(),
    decreases dirs.len(),
{
    if dirs.len() > 0 {
        lemma_walk_keeps_length(advanced(body, dirs[0], true), dirs.drop_first());
    }
}

/// The cell gained by eating is kept for good: after one step that keeps the
/// tail, any number of steps that drop it leave the body one cell longer than
/// it was.
pub proof fn lemma_growth_is_permanent(body: Seq<Point>, d: Direction, dirs: Seq<Direction>)
    requires
        body.len() >= 1,
    ensures
        walked(advanced(body, d, false), dirs).len() == body.len() + 1,
{
    lemma_walk_keeps_length(advanced(body, d, false), dirs);
}

/// A head on the second cell is a collision; a body without repeated cells
/// that lies on the field is not.
pub proof fn lemma_collision_cases(body: Seq<Point>, d: Direction)
    requires
        body.len() >= 2,
    ensures
        body[0] == body[1] ==> collides(body, d),
        body.no_duplicates() && (forall|i: int| 0 <= i < body.len() ==> in_grid(#[trigger] body[i]))
            ==> !collides(body, d),
{
    if body[0] == body[1] {
        assert(hits_self(body));
    }
    if body.no_duplicates() && (forall|i: int| 0 <= i < body.len() ==> in_grid(#[trigger] body[i])) {
        assert(in_grid(body[0]));
        assert forall|i: int| 1 <= i < body.len() implies #[trigger] body[i] != body[0] by {
        }
    }
}

} // verus!
