use crate::apples::{lemma_first_eaten_unique, Apples};
use crate::button::Button;
use crate::direction::Direction;
use crate::game::{lemma_menu_keeps_wf, lemma_restart_keeps_wf, lemma_tick_keeps_wf};
use crate::game::{Game, Input, Outcome, Phase};
use crate::grid::{Cell, Grid};
use crate::snake::{lemma_first_clash_unique, lemma_first_spill_unique, Snake};
use vstd::prelude::*;

verus! {

/// A game session: the field, the snake, the food, the queue of requested
/// turns, the score, the menu and the phase the session is in.
///
/// Time is whatever the caller's clock counts. Each frame the caller passes
/// the clock's reading and the interval the snake currently waits between
/// steps.
pub struct Session {
    pub grid: Grid,
    pub snake: Snake,
    pub apples: Apples,
    pub direction_queue: Vec<Direction>,
    pub score: u64,
    pub phase: Phase,
    pub last_move: u64,
    pub start_button: Button,
    pub exit_button: Button,
    pub on_web: bool,
}

impl View for Session {
    type V = Game;

    open spec fn view(&self) -> Game {
        Game {
            grid: self.grid,
            body: self.snake.squares@,
            direction: self.snake.current_direction,
            marked: self.snake.collided_squares@,
            food: self.apples.apples@,
            queue: self.direction_queue@,
            score: self.score as nat,
            phase: self.phase,
            last_move: self.last_move,
            start_button: self.start_button,
            exit_button: self.exit_button,
            on_web: self.on_web,
        }
    }
}

impl Session {
    /// The session's model is well formed and the food lies on the
    /// session's grid.
    pub open spec fn wf(&self) -> bool {
        &&& self@.wf()
        &&& self.apples.grid == self.grid
    }

    /// A session in the menu, with food on `first` and `second`.
    pub fn with_food(
        grid: Grid,
        start_button: Button,
        exit_button: Button,
        on_web: bool,
        now: u64,
        first: Cell,
        second: Cell,
    ) -> (s: Session)
        requires
            grid.wf(),
        ensures
            s.wf(),
            s@ == Game::opening(grid, start_button, exit_button, on_web, now, first, second),
    {
        let snake = Snake::new(&grid);
        let mut apples = Apples::new(grid);
        apples.place(first);
        apples.place(second);
        Session {
            grid,
            snake,
            apples,
            direction_queue: Vec::new(),
            score: 0,
            phase: Phase::Menu,
            last_move: now,
            start_button,
            exit_button,
            on_web,
        }
    }

    /// A session in the menu, with two pieces of food on cells drawn at
    /// random.
    pub fn new(grid: Grid, start_button: Button, exit_button: Button, on_web: bool, now: u64) -> (s:
        Session)
        requires
            grid.wf(),
        ensures
            s.wf(),
            exists|first: Cell, second: Cell|
                #![trigger grid.admits(first), grid.admits(second)]
                grid.admits(first) && grid.admits(second) && s@ == Game::opening(
                    grid,
                    start_button,
                    exit_button,
                    on_web,
                    now,
                    first,
                    second,
                ),
    {
        let snake = Snake::new(&grid);
        let mut apples = Apples::new(grid);
        apples.random();
        let ghost one = apples.apples@;
        apples.random();
        let s = Session {
            grid,
            snake,
            apples,
            direction_queue: Vec::new(),
            score: 0,
            phase: Phase::Menu,
            last_move: now,
            start_button,
            exit_button,
            on_web,
        };
        proof {
            let first = choose|c: Cell| #[trigger]
                grid.admits(c) && one == Seq::<Cell>::empty().push(c);
            let second = choose|c: Cell| #[trigger] grid.admits(c) && s.apples.apples@ == one.push(c);
            assert(s@ =~= Game::opening(
                grid,
                start_button,
                exit_button,
                on_web,
                now,
                first,
                second,
            ));
        }
        s
    }

    /// Handles a frame in the menu: a click on a button is followed, and
    /// without a click the buttons are lit by the pointer.
    pub fn menu(&mut self, input: Input) -> (out: Outcome)
        requires
            old(self).wf(),
            old(self).phase == Phase::Menu,
        ensures
            final(self).wf(),
            final(self)@ == old(self)@.menu(input),
            out == old(self)@.outcome(input),
    {
        proof {
            lemma_menu_keeps_wf(self@, input);
        }
        let over_start: bool = self.start_button.is_over(input.pointer_x, input.pointer_y);
        let over_exit: bool = self.exit_button.is_over(input.pointer_x, input.pointer_y);
        let mut out = Outcome::Continue;
        if input.click {
            if over_start {
                self.phase = Phase::Playing;
            }
            if over_exit && !self.on_web {
                out = Outcome::Exit;
            }
        } else {
            self.start_button.hover = over_start;
            self.exit_button.hover = over_exit;
        }
        out
    }

    /// Queues the turn requested in a frame, if there is one.
    pub fn record(&mut self, input: Input)
        ensures
            final(self)@ == old(self)@.record(input),
            final(self).apples.grid == old(self).apples.grid,
    {
        match Direction::from_keys(input.up, input.right, input.left, input.down) {
            Some(d) => {
                self.direction_queue.push(d);
            },
            None => {},
        }
    }

    /// Whether the snake is due to step at time `now`.
    pub fn is_due(&self, now: u64, interval: u64) -> (due: bool)
        ensures
            due == self@.due(now, interval),
    {
        now >= self.last_move && now - self.last_move >= interval
    }

    /// Takes the oldest requested turn off the queue and follows it unless
    /// it would reverse the snake.
    fn steer(&mut self)
        ensures
            final(self)@ == old(self)@.steer(),
            final(self).apples.grid == old(self).apples.grid,
    {
        if self.direction_queue.len() > 0 {
            let request = self.direction_queue.remove(0);
            self.snake.current_direction = self.snake.current_direction.turn(request);
        }
    }

    /// Moves the snake one cell.
    fn advance(&mut self)
        requires
            old(self).snake.wf(),
            old(self).snake.head().can_shift(old(self).snake.current_direction),
        ensures
            final(self)@ == old(self)@.advance(),
            final(self).apples.grid == old(self).apples.grid,
    {
        self.snake.move_snake();
    }

    /// Lets the snake eat the first piece of food it lies on, and puts new
    /// food on `fresh`.
    fn feed_with(&mut self, fresh: Cell)
        requires
            old(self).snake.wf(),
            old(self).snake.can_grow(),
            old(self).score < u64::MAX,
        ensures
            final(self)@ == old(self)@.feed(fresh),
            final(self).apples.grid == old(self).apples.grid,
    {
        match self.apples.eaten_by(&self.snake) {
            Some(i) => {
                proof {
                    lemma_first_eaten_unique(self.apples.apples@, self.snake.squares@, i as int);
                }
                self.apples.apples.remove(i);
                self.apples.place(fresh);
                self.snake.grow();
                self.score = self.score + 1;
            },
            None => {},
        }
    }

    /// Lets the snake eat the first piece of food it lies on, and puts new
    /// food on a cell drawn at random.
    fn feed(&mut self)
        requires
            old(self).snake.wf(),
            old(self).snake.can_grow(),
            old(self).score < u64::MAX,
            old(self).grid.wf(),
            old(self).apples.grid == old(self).grid,
        ensures
            exists|fresh: Cell| #[trigger]
                old(self).grid.admits(fresh) && final(self)@ == old(self)@.feed(fresh),
            final(self).apples.grid == old(self).apples.grid,
    {
        match self.apples.eaten_by(&self.snake) {
            Some(i) => {
                proof {
                    lemma_first_eaten_unique(self.apples.apples@, self.snake.squares@, i as int);
                }
                self.apples.apples.remove(i);
                let ghost rest = self.apples.apples@;
                self.apples.random();
                self.snake.grow();
                self.score = self.score + 1;
                proof {
                    let fresh = choose|c: Cell| #[trigger]
                        self.grid.admits(c) && self.apples.apples@ == rest.push(c);
                    assert(self@ =~= old(self)@.feed(fresh));
                }
            },
            None => {
                proof {
                    let fresh = Cell { col: 0, row: 0 };
                    assert(self.grid.admits(fresh));
                    assert(self@ =~= old(self)@.feed(fresh));
                }
            },
        }
    }

    /// Ends the game if the snake has run into itself or left the viewport.
    fn settle(&mut self)
        requires
            old(self).grid.wf(),
        ensures
            final(self)@ == old(self)@.settle(),
            final(self).apples.grid == old(self).apples.grid,
    {
        let grid = self.grid;
        let mut crashed: bool = self.snake.snake_collision();
        if crashed {
            proof {
                lemma_first_clash_unique(
                    self.snake.squares@,
                    self.snake.collided_squares@[0] as int,
                    self.snake.collided_squares@[1] as int,
                );
            }
        } else {
            crashed = self.snake.wall_collision(&grid);
            proof {
                if crashed {
                    lemma_first_spill_unique(
                        self.snake.squares@,
                        grid,
                        self.snake.collided_squares@[0] as int,
                    );
                }
            }
        }
        if crashed {
            self.phase = Phase::GameOver;
            self.score = 0;
        }
    }

    /// One step of the game at time `now`: the oldest requested turn is
    /// considered, the snake moves, eats and grows if it reached food, and
    /// the game ends if it collided. New food, if needed, goes on `fresh`.
    pub fn tick_with(&mut self, fresh: Cell, now: u64)
        requires
            old(self).wf(),
            old(self).phase == Phase::Playing,
        ensures
            final(self).wf(),
            final(self)@ == old(self)@.tick(fresh, now),
    {
        proof {
            lemma_tick_keeps_wf(self@, fresh, now);
        }
        self.steer();
        self.advance();
        assert(self.score + 3 == self.snake.squares.len());
        self.feed_with(fresh);
        self.settle();
        self.last_move = now;
    }

    /// One step of the game at time `now`, with new food, if needed, on a
    /// cell drawn at random.
    pub fn tick(&mut self, now: u64)
        requires
            old(self).wf(),
            old(self).phase == Phase::Playing,
        ensures
            final(self).wf(),
            exists|fresh: Cell| #[trigger]
                old(self).grid.admits(fresh) && final(self)@ == old(self)@.tick(fresh, now),
    {
        self.steer();
        self.advance();
        assert(self.score + 3 == self.snake.squares.len());
        let ghost stepped = self@;
        self.feed();
        let ghost fed = self@;
        self.settle();
        self.last_move = now;
        proof {
            let fresh = choose|c: Cell| #[trigger] self.grid.admits(c) && fed == stepped.feed(c);
            lemma_tick_keeps_wf(old(self)@, fresh, now);
            assert(self@ =~= old(self)@.tick(fresh, now));
        }
    }

    /// Back to the menu after a collision, with a new snake and food on
    /// `first` and `second`.
    pub fn restart_with(&mut self, first: Cell, second: Cell, now: u64)
        requires
            old(self).wf(),
            old(self).phase == Phase::GameOver,
        ensures
            final(self).wf(),
            final(self)@ == old(self)@.restart(first, second, now),
    {
        proof {
            lemma_restart_keeps_wf(self@, first, second, now);
        }
        self.snake = Snake::new(&self.grid);
        self.apples = Apples::new(self.grid);
        self.apples.place(first);
        self.apples.place(second);
        self.phase = Phase::Menu;
        self.last_move = now;
    }

    /// Back to the menu after a collision, with a new snake and food on two
    /// cells drawn at random.
    pub fn restart(&mut self, now: u64)
        requires
            old(self).wf(),
            old(self).phase == Phase::GameOver,
        ensures
            final(self).wf(),
            exists|first: Cell, second: Cell|
                #![trigger old(self).grid.admits(first), old(self).grid.admits(second)]
                old(self).grid.admits(first) && old(self).grid.admits(second) && final(self)@ == old(
                    self,
                )@.restart(first, second, now),
    {
        self.snake = Snake::new(&self.grid);
        self.apples = Apples::new(self.grid);
        self.apples.random();
        let ghost one = self.apples.apples@;
        self.apples.random();
        self.phase = Phase::Menu;
        self.last_move = now;
        proof {
            let first = choose|c: Cell| #[trigger]
                self.grid.admits(c) && one == Seq::<Cell>::empty().push(c);
            let second = choose|c: Cell| #[trigger]
                self.grid.admits(c) && self.apples.apples@ == one.push(c);
            lemma_restart_keeps_wf(old(self)@, first, second, now);
            assert(self@ =~= old(self)@.restart(first, second, now));
        }
    }

    /// Handles one frame. New food, where the frame calls for any, goes on
    /// `first` and `second`.
    pub fn frame_with(&mut self, input: Input, now: u64, interval: u64, first: Cell, second: Cell)
        -> (out: Outcome)
        requires
            old(self).wf(),
        ensures
            final(self).wf(),
            final(self)@ == old(self)@.frame(input, now, interval, first, second),
            out == old(self)@.outcome(input),
    {
        match self.phase {
            Phase::Menu => self.menu(input),
            Phase::Playing => {
                self.record(input);
                if self.is_due(now, interval) {
                    self.tick_with(first, now);
                }
                Outcome::Continue
            },
            Phase::GameOver => {
                if input.confirm {
                    self.restart_with(first, second, now);
                }
                Outcome::Continue
            },
        }
    }

    /// Handles one frame. New food, where the frame calls for any, goes on
    /// cells drawn at random.
    pub fn frame(&mut self, input: Input, now: u64, interval: u64) -> (out: Outcome)
        requires
            old(self).wf(),
        ensures
            final(self).wf(),
            out == old(self)@.outcome(input),
            exists|first: Cell, second: Cell|
                #![trigger old(self).grid.admits(first), old(self).grid.admits(second)]
                old(self).grid.admits(first) && old(self).grid.admits(second) && final(self)@ == old(
                    self,
                )@.frame(input, now, interval, first, second),
    {
        let ghost origin = Cell { col: 0, row: 0 };
        assert(self.grid.admits(origin));
        match self.phase {
            Phase::Menu => {
                let out = self.menu(input);
                assert(self@ == old(self)@.frame(input, now, interval, origin, origin));
                out
            },
            Phase::Playing => {
                self.record(input);
                if self.is_due(now, interval) {
                    let ghost recorded = self@;
                    self.tick(now);
                    proof {
                        let fresh = choose|c: Cell| #[trigger]
                            self.grid.admits(c) && self@ == recorded.tick(c, now);
                        assert(self@ == old(self)@.frame(input, now, interval, fresh, origin));
                    }
                } else {
                    assert(self@ == old(self)@.frame(input, now, interval, origin, origin));
                }
                Outcome::Continue
            },
            Phase::GameOver => {
                if input.confirm {
                    self.restart(now);
                } else {
                    assert(self@ == old(self)@.frame(input, now, interval, origin, origin));
                }
                Outcome::Continue
            },
        }
    }
}

} // verus!
