use vstd::prelude::*;

use crate::direction::{opposite_of, Direction};

verus! {

/// Dimensions of the toroidal playing field, fixed when a game starts.
#[derive(Clone, Copy, PartialEq, Eq, Structural, Debug)]
pub struct Grid {
    pub width: u32,
    pub height: u32,
}

impl Grid {
    /// A grid is usable when both sides are at least one cell long.
    pub open spec fn wf(self) -> bool {
        self.width >= 1 && self.height >= 1
    }

    pub fn new(width: u32, height: u32) -> (g: Grid)
        requires
            width >= 1,
            height >= 1,
        ensures
            g.wf(),
            g == (Grid { width, height }),
    {
        Grid { width, height }
    }
}

/// One coordinate stepped forward with wrap-around: `limit - 1` rolls over
/// to `0`.
pub open spec fn inc_wrap(n: u32, limit: u32) -> u32 {
    if n + 1 == limit {
        0u32
    } else {
        (n + 1) as u32
    }
}

/// One coordinate stepped backward with wrap-around: `0` rolls under to
/// `limit - 1`.
pub open spec fn dec_wrap(n: u32, limit: u32) -> u32 {
    if n == 0 {
        (limit - 1) as u32
    } else {
        (n - 1) as u32
    }
}

fn wrapping_inc(n: u32, limit: u32) -> (r: u32)
    requires
        limit >= 1,
        n < limit,
    ensures
        r == inc_wrap(n, limit),
        r < limit,
{
    if n == limit - 1 {
        0
    } else {
        n + 1
    }
}

fn wrapping_dec(n: u32, limit: u32) -> (r: u32)
    requires
        limit >= 1,
        n < limit,
    ensures
        r == dec_wrap(n, limit),
        r < limit,
{
    if n == 0 {
        limit - 1
    } else {
        n - 1
    }
}

/// A cell of the toroidal grid. The y axis grows downward, so `up`
/// decrements `y` and `down` increments it.
#[derive(Clone, Copy, PartialEq, Eq, Structural, Debug)]
pub struct Pos {
    pub x: u32,
    pub y: u32,
}

impl Pos {
    /// The position lies on the grid.
    pub open spec fn in_grid(self, g: Grid) -> bool {
        self.x < g.width && self.y < g.height
    }

    /// The cell reached from this one by moving one step in direction `d`,
    /// wrapping at the grid's edges; `Direction::Still` stays put.
    pub open spec fn moved(self, d: Direction, g: Grid) -> Pos {
        match d {
            Direction::Still => self,
            Direction::Up => Pos { x: self.x, y: dec_wrap(self.y, g.height) },
            Direction::Down => Pos { x: self.x, y: inc_wrap(self.y, g.height) },
            Direction::Left => Pos { x: dec_wrap(self.x, g.width), y: self.y },
            Direction::Right => Pos { x: inc_wrap(self.x, g.width), y: self.y },
        }
    }

    pub fn up(&mut self, g: &Grid)
        requires
            g.wf(),
            old(self).in_grid(*g),
        ensures
            *final(self) == old(self).moved(Direction::Up, *g),
            final(self).in_grid(*g),
    {
        self.y = wrapping_dec(self.y, g.height);
    }

    pub fn down(&mut self, g: &Grid)
        requires
            g.wf(),
            old(self).in_grid(*g),
        ensures
            *final(self) == old(self).moved(Direction::Down, *g),
            final(self).in_grid(*g),
    {
        self.y = wrapping_inc(self.y, g.height);
    }

    pub fn left(&mut self, g: &Grid)
        requires
            g.wf(),
            old(self).in_grid(*g),
        ensures
            *final(self) == old(self).moved(Direction::Left, *g),
            final(self).in_grid(*g),
    {
        self.x = wrapping_dec(self.x, g.width);
    }

    pub fn right(&mut self, g: &Grid)
        requires
            g.wf(),
            old(self).in_grid(*g),
        ensures
            *final(self) == old(self).moved(Direction::Right, *g),
            final(self).in_grid(*g),
    {
        self.x = wrapping_inc(self.x, g.width);
    }

    /// The moved position as a fresh value, for callers that want to test a
    /// candidate cell without mutating anything.
    pub fn stepped(&self, d: Direction, g: &Grid) -> (r: Pos)
        requires
            g.wf(),
            self.in_grid(*g),
        ensures
            r == self.moved(d, *g),
            r.in_grid(*g),
    {
        let mut p = *self;
        match d {
            Direction::Still => (),
            Direction::Up => p.up(g),
            Direction::Down => p.down(g),
            Direction::Left => p.left(g),
            Direction::Right => p.right(g),
        }
        p
    }
}

/// Law: moving one step in any direction and then one step in the opposite
/// direction returns to the starting cell, on every grid with positive
/// sides (wrap-around round trip).
pub proof fn lemma_move_round_trip(p: Pos, d: Direction, g: Grid)
    requires
        g.wf(),
        p.in_grid(g),
    ensures
        p.moved(d, g).moved(opposite_of(d), g) == p,
{
}

} // verus!
