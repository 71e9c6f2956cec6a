use vstd::prelude::*;

use rand::rngs::ThreadRng;

use crate::apple::place_apple;
use crate::direction::Direction;
use crate::grid::{Grid, Pos};
use crate::rng::fresh_rng;
use crate::snake::{Health, Snake};

verus! {

/// One running game: the grid it is played on, its snake, the apple, and
/// the random source the apple placement draws from. A restart builds a
/// whole new game; nothing of the old state survives.
pub struct Game {
    pub grid: Grid,
    pub rng: ThreadRng,
    pub snake: Snake,
    pub apple: Pos,
}

impl Game {
    /// Snake and apple lie on the grid, and the apple is never on the
    /// snake's body.
    pub open spec fn wf(self) -> bool {
        &&& self.grid.wf()
        &&& self.snake.wf(self.grid)
        &&& self.apple.in_grid(self.grid)
        &&& !self.snake.body@.contains(self.apple)
    }

    /// A fresh game: a one-cell snake in the middle of the grid, alive and
    /// not yet moving, and an apple placed off the snake. The grid must
    /// have a second cell to put the apple on.
    pub fn new(grid: Grid) -> (game: Game)
        requires
            grid.wf(),
            grid.width >= 2 || grid.height >= 2,
        ensures
            game.wf(),
            game.grid == grid,
            game.snake.health == Health::Alive,
            game.snake.direction == Direction::Still,
            !game.snake.needs_to_grow,
            game.snake.body@ == seq![(Pos { x: grid.width / 2, y: grid.height / 2 })],
    {
        let mut rng = fresh_rng();
        let snake = Snake::new(&grid);
        let mut apple = snake.head();
        proof {
            let start = Pos { x: grid.width / 2, y: grid.height / 2 };
            let free = if grid.width >= 2 {
                Pos { x: if grid.width / 2 == 0 { 1u32 } else { 0u32 }, y: grid.height / 2 }
            } else {
                Pos { x: grid.width / 2, y: if grid.height / 2 == 0 { 1u32 } else { 0u32 } }
            };
            assert(free.in_grid(grid));
            assert(free != start);
            assert(snake.body@[0] == start);
            assert(!snake.body@.contains(free));
            assert(exists|p: Pos| p.in_grid(grid) && !snake.body@.contains(p));
        }
        place_apple(&snake, &grid, &mut rng, &mut apple);
        Game { grid, rng, snake, apple }
    }
}

} // verus!
