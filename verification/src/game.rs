use crate::apples::{any_eaten, eaten_index, lemma_first_eaten_exists};
use crate::button::Button;
use crate::direction::Direction;
use crate::grid::{Cell, Grid};
use crate::snake::{clash, fresh_body, grown, has_clash, has_spill, highlight, moved};
use vstd::prelude::*;

verus! {

/// The three states a session moves through.
#[derive(Clone, Copy, Debug, PartialEq, Eq, Structural)]
pub enum Phase {
    /// The menu is shown and nothing moves.
    Menu,
    /// The snake moves.
    Playing,
    /// The snake has collided; the field is shown as it ended.
    GameOver,
}

/// What the caller is asked to do once a frame has been handled.
#[derive(Clone, Copy, Debug, PartialEq, Eq, Structural)]
pub enum Outcome {
    /// Paint and go on with the next frame.
    Continue,
    /// End the program.
    Exit,
}

/// What the input devices report for one frame: which of the keys went down,
/// whether the left mouse button went down, and where the pointer is.
#[derive(Clone, Copy, Debug, PartialEq, Eq, Structural)]
pub struct Input {
    pub up: bool,
    pub right: bool,
    pub left: bool,
    pub down: bool,
    pub confirm: bool,
    pub click: bool,
    pub pointer_x: i32,
    pub pointer_y: i32,
}

/// The state of a session as plain mathematical values. The steps of the
/// game are functions on this model; the session's own operations are proved
/// to follow them.
#[verifier::ext_equal]
pub struct Game {
    pub grid: Grid,
    /// The snake from tail to head.
    pub body: Seq<Cell>,
    pub direction: Direction,
    /// Segments highlighted after a collision.
    pub marked: Seq<usize>,
    pub food: Seq<Cell>,
    /// Requested turns, oldest first.
    pub queue: Seq<Direction>,
    pub score: nat,
    pub phase: Phase,
    /// The caller's clock at the last step of the snake.
    pub last_move: u64,
    pub start_button: Button,
    pub exit_button: Button,
    pub on_web: bool,
}

impl Input {
    /// The turn asked for in this frame, if any.
    pub open spec fn request(self) -> Option<Direction> {
        Direction::spec_from_keys(self.up, self.right, self.left, self.down)
    }
}

impl Game {
    /// What holds of every state a session can reach. There are always two
    /// pieces of food and the snake has three segments or more. In the menu
    /// a new snake waits and the score is zero. While playing the score
    /// counts the segments gained, no two segments share a cell, nothing is
    /// highlighted and every segment has representable neighbours. After a
    /// collision the score is back to zero.
    pub open spec fn wf(self) -> bool {
        &&& self.grid.wf()
        &&& self.food.len() == 2
        &&& self.body.len() >= 3
        &&& match self.phase {
            Phase::Menu => {
                &&& self.body == fresh_body(self.grid)
                &&& self.direction == Direction::Right
                &&& self.marked.len() == 0
                &&& self.score == 0
            },
            Phase::Playing => {
                &&& self.score + 3 == self.body.len()
                &&& !has_clash(self.body)
                &&& self.marked.len() == 0
                &&& forall|i: int| 0 <= i < self.body.len() ==> (#[trigger] self.body[i]).has_room()
            },
            Phase::GameOver => self.score == 0,
        }
    }

    /// The state a session opens in: the menu, with a new snake, food on
    /// `first` and `second`, no points and nothing queued.
    pub open spec fn opening(
        grid: Grid,
        start_button: Button,
        exit_button: Button,
        on_web: bool,
        now: u64,
        first: Cell,
        second: Cell,
    ) -> Game {
        Game {
            grid,
            body: fresh_body(grid),
            direction: Direction::Right,
            marked: Seq::empty(),
            food: seq![first, second],
            queue: Seq::empty(),
            score: 0,
            phase: Phase::Menu,
            last_move: now,
            start_button,
            exit_button,
            on_web,
        }
    }

    /// A frame in the menu. A click on the start button begins the game; a
    /// click elsewhere changes nothing. Without a click the buttons follow
    /// the pointer.
    pub open spec fn menu(self, input: Input) -> Game {
        let over_start = self.start_button.covers(input.pointer_x, input.pointer_y);
        let over_exit = self.exit_button.covers(input.pointer_x, input.pointer_y);
        if input.click {
            Game { phase: if over_start { Phase::Playing } else { Phase::Menu }, ..self }
        } else {
            Game {
                start_button: Button { hover: over_start, ..self.start_button },
                exit_button: Button { hover: over_exit, ..self.exit_button },
                ..self
            }
        }
    }

    /// Whether a frame asks to end the program: a click on the exit button
    /// in the menu, unless the game runs on the web, where there is no exit.
    pub open spec fn quits(self, input: Input) -> bool {
        &&& self.phase == Phase::Menu
        &&& input.click
        &&& !self.on_web
        &&& self.exit_button.covers(input.pointer_x, input.pointer_y)
    }

    /// What the caller is told after a frame.
    pub open spec fn outcome(self, input: Input) -> Outcome {
        if self.quits(input) {
            Outcome::Exit
        } else {
            Outcome::Continue
        }
    }

    /// The turn requested in a frame joins the end of the queue.
    pub open spec fn record(self, input: Input) -> Game {
        match input.request() {
            Some(d) => Game { queue: self.queue.push(d), ..self },
            None => self,
        }
    }

    /// Whether the snake is due to step: `interval` or more has passed on the
    /// caller's clock since its last step.
    pub open spec fn due(self, now: u64, interval: u64) -> bool {
        now - self.last_move >= interval
    }

    /// The oldest requested turn leaves the queue and is taken unless it
    /// would reverse the snake.
    pub open spec fn steer(self) -> Game {
        if self.queue.len() > 0 {
            Game {
                direction: self.direction.spec_turn(self.queue[0]),
                queue: self.queue.drop_first(),
                ..self
            }
        } else {
            self
        }
    }

    /// The snake steps one cell in its direction.
    pub open spec fn advance(self) -> Game {
        Game { body: moved(self.body, self.direction), ..self }
    }

    /// Whether a piece of food lies under the snake.
    pub open spec fn eats(self) -> bool {
        any_eaten(self.food, self.body)
    }

    /// If food lies under the snake, the first such piece is replaced by one
    /// on `fresh`, the snake grows at the tail and the score goes up by one.
    pub open spec fn feed(self, fresh: Cell) -> Game {
        if self.eats() {
            Game {
                food: self.food.remove(eaten_index(self.food, self.body)).push(fresh),
                body: grown(self.body),
                score: self.score + 1,
                ..self
            }
        } else {
            self
        }
    }

    /// Whether the snake runs into itself or reaches outside the viewport.
    pub open spec fn crashed(self) -> bool {
        has_clash(self.body) || has_spill(self.body, self.grid)
    }

    /// A collision ends the game: the score returns to zero and the
    /// segments involved are highlighted.
    pub open spec fn settle(self) -> Game {
        if self.crashed() {
            Game {
                phase: Phase::GameOver,
                score: 0,
                marked: highlight(self.body, self.grid),
                ..self
            }
        } else {
            self
        }
    }

    /// One step of the game at time `now`: steer, advance, feed, settle.
    /// `fresh` is where new food goes if some is eaten.
    pub open spec fn tick(self, fresh: Cell, now: u64) -> Game {
        Game { last_move: now, ..self.steer().advance().feed(fresh).settle() }
    }

    /// Back to the menu with a new snake and new food on `first` and
    /// `second`. Requested turns that were not used stay queued.
    pub open spec fn restart(self, first: Cell, second: Cell, now: u64) -> Game {
        Game {
            body: fresh_body(self.grid),
            direction: Direction::Right,
            marked: Seq::empty(),
            food: seq![first, second],
            phase: Phase::Menu,
            last_move: now,
            ..self
        }
    }

    /// One frame. In the menu the pointer is followed. While playing the
    /// requested turn is queued and the game steps if it is due. After a
    /// collision the confirm key leads back to the menu. `first` and `second`
    /// are the cells for any new food.
    pub open spec fn frame(self, input: Input, now: u64, interval: u64, first: Cell, second: Cell)
        -> Game {
        match self.phase {
            Phase::Menu => self.menu(input),
            Phase::Playing => {
                if self.record(input).due(now, interval) {
                    self.record(input).tick(first, now)
                } else {
                    self.record(input)
                }
            },
            Phase::GameOver => {
                if input.confirm {
                    self.restart(first, second, now)
                } else {
                    self
                }
            },
        }
    }
}

/// In a usable grid a new snake lies on three different cells, each with
/// representable neighbours.
pub proof fn lemma_fresh_body_is_sound(grid: Grid)
    requires
        grid.wf(),
    ensures
        fresh_body(grid).len() == 3,
        !has_clash(fresh_body(grid)),
        forall|i: int| 0 <= i < 3 ==> (#[trigger] fresh_body(grid)[i]).has_room(),
{
    grid.lemma_grid_fits();
    assert forall|i: int, j: int| !clash(fresh_body(grid), i, j) by {}
}

/// A click on the start button, or any other frame in the menu, leads to a
/// state that is well formed again.
pub proof fn lemma_menu_keeps_wf(g: Game, input: Input)
    requires
        g.wf(),
        g.phase == Phase::Menu,
    ensures
        g.menu(input).wf(),
{
    lemma_fresh_body_is_sound(g.grid);
}

/// A step of the game leads from a well-formed state to a well-formed
/// state, whichever cell the new food goes to.
pub proof fn lemma_tick_keeps_wf(g: Game, fresh: Cell, now: u64)
    requires
        g.wf(),
        g.phase == Phase::Playing,
    ensures
        g.tick(fresh, now).wf(),
{
    let stepped = g.steer().advance();
    let fed = stepped.feed(fresh);
    assert(stepped.body.len() == g.body.len());
    if stepped.eats() {
        lemma_first_eaten_exists(stepped.food, stepped.body);
    }
    assert(fed.food.len() == 2);
    if !fed.crashed() {
        assert forall|i: int| 0 <= i < fed.body.len() implies (#[trigger] fed.body[i]).has_room() by {
            assert(!g.grid.spills(fed.body[i]));
            g.grid.lemma_spills_iff_outside(fed.body[i]);
            g.grid.lemma_grid_fits();
        }
    }
}

/// A restart leads to a well-formed state in the menu.
pub proof fn lemma_restart_keeps_wf(g: Game, first: Cell, second: Cell, now: u64)
    requires
        g.wf(),
        g.phase == Phase::GameOver,
    ensures
        g.restart(first, second, now).wf(),
        g.restart(first, second, now).phase == Phase::Menu,
{
}

/// Every frame leads from a well-formed state to a well-formed state.
pub proof fn lemma_frame_keeps_wf(
    g: Game,
    input: Input,
    now: u64,
    interval: u64,
    first: Cell,
    second: Cell,
)
    requires
        g.wf(),
    ensures
        g.frame(input, now, interval, first, second).wf(),
{
    match g.phase {
        Phase::Menu => lemma_menu_keeps_wf(g, input),
        Phase::Playing => lemma_tick_keeps_wf(g.record(input), first, now),
        Phase::GameOver => lemma_restart_keeps_wf(g, first, second, now),
    }
}

/// A step in which the snake reaches food makes the snake one segment
/// longer. Unless the same step ends the game, it raises the score by one.
pub proof fn lemma_eating_grows(g: Game, fresh: Cell, now: u64)
    requires
        g.wf(),
        g.phase == Phase::Playing,
        g.steer().advance().eats(),
    ensures
        g.tick(fresh, now).body.len() == g.body.len() + 1,
        g.tick(fresh, now).phase == Phase::Playing ==> g.tick(fresh, now).score == g.score + 1,
        g.tick(fresh, now).phase != Phase::Playing ==> g.tick(fresh, now).score == 0,
        g.tick(fresh, now).food.len() == 2,
{
    lemma_tick_keeps_wf(g, fresh, now);
}

/// A step in which the snake reaches no food leaves its length, the food and,
/// unless the step ends the game, the score as they were.
pub proof fn lemma_plain_step_keeps_length(g: Game, fresh: Cell, now: u64)
    requires
        g.wf(),
        g.phase == Phase::Playing,
        !g.steer().advance().eats(),
    ensures
        g.tick(fresh, now).body.len() == g.body.len(),
        g.tick(fresh, now).food == g.food,
        g.tick(fresh, now).phase == Phase::Playing ==> g.tick(fresh, now).score == g.score,
{
}

} // verus!
