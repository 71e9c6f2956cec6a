use vstd::prelude::*;

use rand::rngs::ThreadRng;

use crate::grid::{Grid, Pos};
use crate::rng::rand_below;
use crate::snake::Snake;

verus! {

/// How many uniform samples are drawn before placement falls back to a
/// deterministic scan. On a sparsely occupied board the scan is essentially
/// never reached; the bound only makes every tick provably end.
pub const APPLE_SAMPLE_TRIES: u32 = 64;

/// Move the apple to a cell not covered by the snake, sampling uniformly
/// over the grid and rejecting occupied cells; after `APPLE_SAMPLE_TRIES`
/// rejections a row-major scan takes the first free cell instead. The apple
/// is written only when a free cell is found, so when the snake covers the
/// whole grid it stays where it was.
pub fn place_apple(snake: &Snake, g: &Grid, rng: &mut ThreadRng, apple: &mut Pos)
    requires
        g.wf(),
        snake.wf(*g),
        old(apple).in_grid(*g),
    ensures
        final(apple).in_grid(*g),
        (exists|p: Pos| p.in_grid(*g) && !snake.body@.contains(p)) ==> !snake.body@.contains(
            *final(apple),
        ),
        !(exists|p: Pos| p.in_grid(*g) && !snake.body@.contains(p)) ==> *final(apple) == *old(
            apple,
        ),
{
    if !snake.contains(*apple) {
        return ;
    }
    let mut tries: u32 = 0;
    while tries < APPLE_SAMPLE_TRIES
        invariant
            g.wf(),
            snake.wf(*g),
            apple.in_grid(*g),
            *apple == *old(apple),
        decreases APPLE_SAMPLE_TRIES - tries,
    {
        let x = rand_below(rng, g.width);
        let y = rand_below(rng, g.height);
        let cand = Pos { x, y };
        if !snake.contains(cand) {
            *apple = cand;
            return ;
        }
        tries = tries + 1;
    }
    let mut y: u32 = 0;
    while y < g.height
        invariant
            g.wf(),
            snake.wf(*g),
            apple.in_grid(*g),
            *apple == *old(apple),
            forall|p: Pos| p.in_grid(*g) && p.y < y ==> snake.body@.contains(p),
        decreases g.height - y,
    {
        let mut x: u32 = 0;
        while x < g.width
            invariant
                g.wf(),
                snake.wf(*g),
                apple.in_grid(*g),
                *apple == *old(apple),
                y < g.height,
                forall|p: Pos| p.in_grid(*g) && p.y < y ==> snake.body@.contains(p),
                forall|p: Pos| p.in_grid(*g) && p.y == y && p.x < x ==> snake.body@.contains(p),
            decreases g.width - x,
        {
            let cand = Pos { x, y };
            if !snake.contains(cand) {
                *apple = cand;
                return ;
            }
            x = x + 1;
        }
        y = y + 1;
    }
}

} // verus!
