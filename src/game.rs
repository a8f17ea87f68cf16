use vstd::prelude::*;

use crate::commands::{after_take, next_of};
use crate::direction::Direction;
use crate::food::{spawn_apple, valid_spawn};
use crate::point::{in_grid, neighbour, Point};
use crate::snake::{advanced, collides, hits_edge, hits_self, queued, Keys, Snake};
use crate::{FIELD_CELLS, TICK_MS};

verus! {

broadcast use vstd::std_specs::vecdeque::group_vec_dequeue_axioms;

/// Enough time has passed since the last step for the next one.
pub open spec fn tick_due(now_ms: u64, last_tick_ms: u64) -> bool {
    now_ms > last_tick_ms + TICK_MS
}

/// One simulation step from `g` to `h`, where `fresh` is the cell that food
/// placement offered in case the head stood on the food.
///
/// When the head stands on the food the score grows by one and the food moves
/// to `fresh`, or stays where it is when no free cell was left. Then the next
/// queued direction is committed and the snake moves one cell, keeping its
/// tail when it has just eaten. A collision after the move ends the game in
/// the position reached.
pub open spec fn stepped(g: Game, h: Game, fresh: Option<Point>) -> bool {
    stepped_from(g, g.snake.commands_queue@, h, fresh)
}

/// As `stepped`, with `q` standing for the pending turns of `g`.
pub open spec fn stepped_from(g: Game, q: Seq<Direction>, h: Game, fresh: Option<Point>) -> bool {
    let ate = g.snake.body@[0] == g.apple;
    let d = next_of(q);
    let body = advanced(g.snake.body@, d, !ate);
    &&& h.score == if ate { g.score + 1 } else { g.score as int }
    &&& h.apple == if ate && fresh is Some { fresh.unwrap() } else { g.apple }
    &&& h.snake.direction == d
    &&& h.snake.commands_queue@ == after_take(q)
    &&& h.snake.body@ == body
    &&& h.is_over == collides(body, d)
    &&& h.snake.is_hungry == (!h.is_over || !ate)
}

/// The whole game state: the snake, the food, the score, when the last step
/// was taken, and whether the game has ended.
#[derive(Debug)]
pub struct Game {
    pub score: usize,
    pub snake: Snake,
    pub apple: Point,
    pub last_tick_ms: u64,
    pub is_over: bool,
}

impl Game {
    /// The snake is well formed and has grown by one cell per point scored.
    /// While the game runs every cell of the snake lies on the field, and
    /// the next step drops the tail unless food is eaten first.
    pub open spec fn wf(&self) -> bool {
        &&& self.snake.wf()
        &&& self.score < self.snake.body@.len()
        &&& !self.is_over ==> {
            &&& self.score + 2 == self.snake.body@.len()
            &&& self.snake.is_hungry
            &&& forall|i: int|
                0 <= i < self.snake.body@.len() ==> in_grid(#[trigger] self.snake.body@[i])
        }
    }

    /// A fresh game with the food at `apple`.
    pub fn with_apple(apple: Point) -> (r: Game)
        ensures
            r.wf(),
            r.score == 0,
            r.apple == apple,
            r.last_tick_ms == 0,
            !r.is_over,
            r.snake.body@ == seq![Point { x: 5, y: 5 }, Point { x: 5, y: 6 }],
            r.snake.direction == Direction::RIGHT,
            r.snake.commands_queue@ == seq![Direction::RIGHT],
    {
        let snake = Snake::new();
        Game { score: 0, snake, apple, last_tick_ms: 0, is_over: false }
    }

    /// A fresh game with the food on a random free cell.
    pub fn new() -> (r: Game)
        ensures
            r.wf(),
            r.score == 0,
            !r.is_over,
            r.last_tick_ms == 0,
            in_grid(r.apple),
            !r.snake.body@.contains(r.apple),
            r.snake.body@ == seq![Point { x: 5, y: 5 }, Point { x: 5, y: 6 }],
            r.snake.direction == Direction::RIGHT,
            r.snake.commands_queue@ == seq![Direction::RIGHT],
    {
        let snake = Snake::new();
        let spot = spawn_apple(&snake.body);
        // Two cells are taken, so the field is not full.
        proof {
            let corner = Point { x: 0, y: 0 };
            assert(!snake.body@.contains(corner)) by {
                assert(snake.body@[0] != corner && snake.body@[1] != corner);
            }
        }
        let apple = spot.unwrap();
        Game { score: 0, snake, apple, last_tick_ms: 0, is_over: false }
    }

    /// One simulation step, with `fresh` as the new food cell should the snake
    /// eat; with `None` the food stays where it is.
    pub fn step_with(&mut self, fresh: Option<Point>)
        requires
            old(self).wf(),
            !old(self).is_over,
        ensures
            final(self).wf(),
            stepped(*old(self), *final(self), fresh),
            final(self).last_tick_ms == old(self).last_tick_ms,
    {
        let ate = *self.snake.head() == self.apple;
        if ate {
            self.snake.is_hungry = false;
            if let Some(p) = fresh {
                self.apple = p;
            }
        }
        self.snake.turn_snake();
        self.snake.move_body();
        if ate {
            proof {
                assert(self.snake.body@.len() == self.snake.body.len());
            }
            self.score = self.score + 1;
        }
        if self.snake.check_collision() {
            self.is_over = true;
            return;
        }
        self.snake.is_hungry = true;
        proof {
            let b = self.snake.body@;
            let ob = old(self).snake.body@;
            assert forall|i: int| 0 <= i < b.len() implies in_grid(#[trigger] b[i]) by {
                if i > 0 {
                    assert(b[i] == ob[i - 1]);
                }
            }
        }
    }

    /// One simulation step: the food is placed anew by `spawn_apple` if the
    /// snake eats it, so it never lands on a cell that the snake covered.
    pub fn step(&mut self)
        requires
            old(self).wf(),
            !old(self).is_over,
        ensures
            final(self).wf(),
            exists|fresh: Option<Point>|
                (old(self).snake.body@[0] == old(self).apple ==> valid_spawn(
                    old(self).snake.body@,
                    fresh,
                )) && #[trigger] stepped(
                    *old(self),
                    *final(self),
                    fresh,
                ),
            final(self).last_tick_ms == old(self).last_tick_ms,
    {
        let ate = *self.snake.head() == self.apple;
        let fresh = if ate {
            spawn_apple(&self.snake.body)
        } else {
            None
        };
        self.step_with(fresh);
    }

    /// Handles one frame. The turn that the keys ask for is queued; then, while
    /// the game runs and more than `TICK_MS` milliseconds have passed since the
    /// last step, a step is taken, and its time is recorded unless it ended the
    /// game.
    pub fn tick(&mut self, now_ms: u64, keys: Keys)
        requires
            old(self).wf(),
        ensures
            final(self).wf(),
            old(self).is_over ==> {
                &&& final(self).is_over
                &&& final(self).score == old(self).score
                &&& final(self).apple == old(self).apple
                &&& final(self).last_tick_ms == old(self).last_tick_ms
                &&& final(self).snake.body@ == old(self).snake.body@
                &&& final(self).snake.direction == old(self).snake.direction
                &&& final(self).snake.is_hungry == old(self).snake.is_hungry
                &&& final(self).snake.commands_queue@ == queued(
                    old(self).snake.commands_queue@,
                    keys,
                )
            },
            !old(self).is_over ==> {
                let q = queued(old(self).snake.commands_queue@, keys);
                if tick_due(now_ms, old(self).last_tick_ms) {
                    &&& exists|fresh: Option<Point>|
                        (old(self).snake.body@[0] == old(self).apple ==> valid_spawn(
                            old(self).snake.body@,
                            fresh,
                        )) && #[trigger] stepped_from(*old(self), q, *final(self), fresh)
                    &&& final(self).last_tick_ms == if final(self).is_over {
                        old(self).last_tick_ms
                    } else {
                        now_ms
                    }
                } else {
                    &&& !final(self).is_over
                    &&& final(self).score == old(self).score
                    &&& final(self).apple == old(self).apple
                    &&& final(self).last_tick_ms == old(self).last_tick_ms
                    &&& final(self).snake.body@ == old(self).snake.body@
                    &&& final(self).snake.direction == old(self).snake.direction
                    &&& final(self).snake.is_hungry == old(self).snake.is_hungry
                    &&& final(self).snake.commands_queue@ == q
                }
            },
    {
        self.snake.process_commands(keys);
        if self.is_over {
            return;
        }
        if now_ms > self.last_tick_ms && now_ms - self.last_tick_ms > TICK_MS {
            let ghost mid = *self;
            self.step();
            let ghost after = *self;
            if !self.is_over {
                self.last_tick_ms = now_ms;
            }
            proof {
                let fresh = choose|fresh: Option<Point>|
                    (mid.snake.body@[0] == mid.apple ==> valid_spawn(mid.snake.body@, fresh))
                        && #[trigger] stepped(mid, after, fresh);
                assert(stepped_from(*old(self), mid.snake.commands_queue@, *self, fresh));
                assert(exists|f: Option<Point>|
                    (old(self).snake.body@[0] == old(self).apple ==> valid_spawn(
                        old(self).snake.body@,
                        f,
                    )) && #[trigger] stepped_from(
                        *old(self),
                        queued(old(self).snake.commands_queue@, keys),
                        *self,
                        f,
                    ));
            }
        }
    }
}

/// Each step on which the head stands on the food scores exactly one point and,
/// unless the game ends, puts the food on a cell that the snake did not cover;
/// any other step leaves the score as it was. When no cell is left for the
/// food, the move that follows always ends the game.
pub proof fn lemma_eating_scores_one(g: Game, h: Game, fresh: Option<Point>)
    requires
        g.wf(),
        !g.is_over,
        stepped(g, h, fresh),
        g.snake.body@[0] == g.apple ==> valid_spawn(g.snake.body@, fresh),
    ensures
        g.snake.body@[0] == g.apple ==> h.score == g.score + 1,
        g.snake.body@[0] != g.apple ==> h.score == g.score,
        g.snake.body@[0] == g.apple && !h.is_over ==> in_grid(h.apple)
            && !g.snake.body@.contains(h.apple),
{
    let b = g.snake.body@;
    if b[0] == g.apple && fresh is None {
        let d = next_of(g.snake.commands_queue@);
        let head = neighbour(b[0], d);
        let nb = advanced(b, d, false);
        assert(in_grid(b[0]));
        if in_grid(head) {
            assert(b.contains(head));
            let j = choose|j: int| 0 <= j < b.len() && b[j] == head;
            assert(nb[j + 1] == nb[0]);
            assert(hits_self(nb));
        } else {
            assert(hits_edge(head, d));
        }
        assert(collides(nb, d));
    }
}

/// A step to the right from the last column ends the game.
pub proof fn lemma_right_edge_ends_game(g: Game, h: Game, fresh: Option<Point>)
    requires
        stepped(g, h, fresh),
        g.snake.body@.len() >= 1,
        next_of(g.snake.commands_queue@) == Direction::RIGHT,
        g.snake.body@[0].x == FIELD_CELLS - 1,
    ensures
        h.is_over,
{
}

} // verus!
