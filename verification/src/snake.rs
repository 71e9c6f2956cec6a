use vstd::prelude::*;

use rand::rngs::ThreadRng;

use crate::apple::place_apple;
use crate::direction::Direction;
use crate::grid::{Grid, Pos};

verus! {

/// A one-step state machine toward death: a self-collision while `Alive`
/// grants one grace tick (`Dying`); any further collision is fatal, and
/// `Dead` is terminal.
#[derive(Clone, Copy, PartialEq, Eq, Structural, Debug)]
pub enum Health {
    Alive,
    Dying,
    Dead,
}

/// The health reached after one self-collision.
pub open spec fn health_after_collision(h: Health) -> Health {
    match h {
        Health::Alive => Health::Dying,
        _ => Health::Dead,
    }
}

/// True when `candidate` sits on an interior segment of `body`: any cell of
/// the body except the current head (front) and the current tail (back).
/// The tail is excluded deliberately: it vacates its cell on a non-growing
/// move, so stepping onto it is a one-cell leniency, not a collision.
pub open spec fn collides(body: Seq<Pos>, candidate: Pos) -> bool {
    exists|i: int| 1 <= i < body.len() - 1 && body[i] == candidate
}

/// All cells of a body are pairwise different.
pub open spec fn distinct_cells(body: Seq<Pos>) -> bool {
    forall|i: int, j: int| 0 <= i < j < body.len() ==> body[i] != body[j]
}

/// The snake: an ordered body of cells with the head at index 0 (most
/// recent cell first), a facing, a health state, and a growth flag set when
/// an apple was just eaten and consumed before the tick ends.
pub struct Snake {
    pub health: Health,
    pub body: Vec<Pos>,
    pub direction: Direction,
    pub needs_to_grow: bool,
}

impl Snake {
    /// The body is never empty and lies on the grid.
    pub open spec fn wf(self, g: Grid) -> bool {
        &&& self.body@.len() >= 1
        &&& forall|i: int| 0 <= i < self.body@.len() ==> self.body@[i].in_grid(g)
    }

    /// The cell the head would reach by one move in the current facing.
    pub open spec fn next_head(self, g: Grid) -> Pos {
        self.body@[0].moved(self.direction, g)
    }

    /// The tick will attempt a move: the snake is not frozen dead and has a
    /// facing.
    pub open spec fn tick_moves(self) -> bool {
        self.health != Health::Dead && self.direction != Direction::Still
    }

    /// The body right after the new head is pushed, before any tail pop.
    pub open spec fn grown_body(self, g: Grid) -> Seq<Pos> {
        seq![self.next_head(g)] + self.body@
    }

    /// The snake eats this tick: the apple sits on the new head or on some
    /// cell of the pre-tick body.
    pub open spec fn eats(self, g: Grid, apple: Pos) -> bool {
        self.grown_body(g).contains(apple)
    }

    /// A fresh snake: one cell at the middle of the grid, alive, not yet
    /// moving.
    pub fn new(g: &Grid) -> (s: Snake)
        requires
            g.wf(),
        ensures
            s.wf(*g),
            s.health == Health::Alive,
            s.direction == Direction::Still,
            !s.needs_to_grow,
            s.body@ == seq![(Pos { x: g.width / 2, y: g.height / 2 })],
    {
        let start = Pos { x: g.width / 2, y: g.height / 2 };
        let mut body: Vec<Pos> = Vec::new();
        body.push(start);
        proof {
            assert(body@ =~= seq![start]);
        }
        Snake { health: Health::Alive, body, direction: Direction::Still, needs_to_grow: false }
    }

    /// Number of body cells.
    pub fn len(&self) -> (r: usize)
        ensures
            r == self.body@.len(),
    {
        self.body.len()
    }

    /// The front cell. The body being empty is an invariant violation, so
    /// it is ruled out rather than handled.
    pub fn head(&self) -> (r: Pos)
        requires
            self.body@.len() >= 1,
        ensures
            r == self.body@[0],
    {
        self.body[0]
    }

    /// Whether stepping onto `candidate` would be fatal: true exactly when
    /// the cell sits on an interior segment (neither the current head nor
    /// the current tail).
    pub fn will_collide(&self, candidate: Pos) -> (r: bool)
        ensures
            r == collides(self.body@, candidate),
    {
        let len = self.body.len();
        if len < 2 {
            return false;
        }
        let mut i: usize = 1;
        while i < len - 1
            invariant
                len == self.body@.len(),
                2 <= len,
                1 <= i <= len - 1,
                forall|j: int| 1 <= j < i ==> self.body@[j] != candidate,
            decreases len - i,
        {
            if self.body[i] == candidate {
                return true;
            }
            i = i + 1;
        }
        false
    }

    /// Membership test over the whole body, head and tail included.
    pub fn contains(&self, pos: Pos) -> (r: bool)
        ensures
            r == self.body@.contains(pos),
    {
        let len = self.body.len();
        let mut i: usize = 0;
        while i < len
            invariant
                len == self.body@.len(),
                i <= len,
                forall|j: int| 0 <= j < i ==> self.body@[j] != pos,
            decreases len - i,
        {
            if self.body[i] == pos {
                return true;
            }
            i = i + 1;
        }
        false
    }

    /// One simulation step.
    ///
    /// A dead snake, or one with no facing yet, does nothing. If the moved
    /// head would sit on an interior segment, only the health machine
    /// advances one step toward `Dead` and the body stays put (the grace
    /// tick). Otherwise the snake comes (back) alive and the new head is
    /// pushed; if the pushed body covers the apple, the snake grows (the
    /// tail is kept) and the apple is placed anew off the snake (see
    /// `place_apple`); without growth the tail is popped, keeping the
    /// length. The growth flag is consumed by the end of the tick.
    pub fn tick(&mut self, g: &Grid, apple: &mut Pos, rng: &mut ThreadRng)
        requires
            g.wf(),
            old(self).wf(*g),
        ensures
            final(self).wf(*g),
            final(self).direction == old(self).direction,
            old(self).health == Health::Dead ==> *final(self) == *old(self) && *final(apple)
                == *old(apple),
            old(self).health != Health::Dead && old(self).direction == Direction::Still
                ==> *final(self) == *old(self) && *final(apple) == *old(apple),
            old(self).tick_moves() && collides(old(self).body@, old(self).next_head(*g)) ==> {
                &&& final(self).body@ == old(self).body@
                &&& final(self).needs_to_grow == old(self).needs_to_grow
                &&& final(self).health == health_after_collision(old(self).health)
                &&& *final(apple) == *old(apple)
            },
            old(self).tick_moves() && !collides(old(self).body@, old(self).next_head(*g)) ==> {
                &&& final(self).health == Health::Alive
                &&& !final(self).needs_to_grow
                &&& (if old(self).eats(*g, *old(apple)) || old(self).needs_to_grow {
                    final(self).body@ == old(self).grown_body(*g)
                } else {
                    final(self).body@ == old(self).grown_body(*g).drop_last()
                })
                &&& (old(self).eats(*g, *old(apple)) ==> {
                    &&& final(apple).in_grid(*g)
                    &&& final(self).body@.len() == old(self).body@.len() + 1
                    &&& ((exists|p: Pos|
                        p.in_grid(*g) && !old(self).grown_body(*g).contains(p))
                        ==> !final(self).body@.contains(*final(apple)))
                    &&& (!(exists|p: Pos|
                        p.in_grid(*g) && !old(self).grown_body(*g).contains(p))
                        ==> *final(apple) == *old(apple))
                })
                &&& (!old(self).eats(*g, *old(apple)) ==> *final(apple) == *old(apple))
                &&& (!old(self).eats(*g, *old(apple)) && !old(self).needs_to_grow
                    ==> final(self).body@.len() == old(self).body@.len())
            },
    {
        if self.health == Health::Dead {
            return ;
        }
        if self.direction == Direction::Still {
            return ;
        }
        let new_head = self.body[0].stepped(self.direction, g);
        if self.will_collide(new_head) {
            self.health = if self.health == Health::Alive {
                Health::Dying
            } else {
                Health::Dead
            };
            return ;
        }
        self.health = Health::Alive;
        self.body.insert(0, new_head);
        proof {
            assert(self.body@ =~= old(self).grown_body(*g));
            assert forall|i: int| 0 <= i < self.body@.len() implies self.body@[i].in_grid(
                *g,
            ) by {
                if i > 0 {
                    assert(self.body@[i] == old(self).body@[i - 1]);
                }
            }
        }
        if self.contains(*apple) {
            self.needs_to_grow = true;
            proof {
                let j = choose|j: int| 0 <= j < self.body@.len() && self.body@[j] == *apple;
                assert(self.body@[j].in_grid(*g));
            }
            place_apple(self, g, rng, apple);
        }
        if !self.needs_to_grow {
            let _ = self.body.pop();
            proof {
                assert(self.body@ =~= old(self).grown_body(*g).drop_last());
            }
        }
        self.needs_to_grow = false;
    }
}

/// Law: a collision is only ever reported against an interior segment; on a
/// body whose cells are pairwise different, the snake's own head cell and
/// tail cell are never reported.
pub proof fn lemma_collision_spares_head_and_tail(body: Seq<Pos>)
    requires
        body.len() >= 1,
        distinct_cells(body),
    ensures
        !collides(body, body[0]),
        !collides(body, body[body.len() - 1]),
        forall|p: Pos| collides(body, p) ==> exists|i: int| 1 <= i < body.len() - 1 && body[i] == p,
{
}

/// Law: the health machine reaches `Dead` after two collision steps from
/// any starting state; `Alive` grants exactly one grace step.
pub proof fn lemma_two_collisions_fatal(h: Health)
    ensures
        health_after_collision(Health::Alive) == Health::Dying,
        health_after_collision(Health::Dying) == Health::Dead,
        health_after_collision(health_after_collision(h)) == Health::Dead,
{
}

} // verus!
