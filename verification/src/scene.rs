use crate::apples::food_square;
use crate::game::Phase;
use crate::grid::Square;
use crate::session::Session;
use crate::snake::segment_square;
use vstd::prelude::*;

verus! {

/// What to paint after a frame has been handled, from back to front.
pub struct Scene {
    /// The logo and the start button.
    pub menu: bool,
    /// The exit button.
    pub exit_button: bool,
    /// The line that tells the player how to go on after a collision.
    pub notice: bool,
    /// The snake from tail to head. Empty while the field is hidden.
    pub snake: Vec<Square>,
    /// The food in the order placed. Empty while the field is hidden.
    pub apples: Vec<Square>,
    /// The score to print, while the field is shown.
    pub score: Option<u64>,
}

impl Session {
    /// Whether the field with snake, food and score is on show: at all
    /// times but in the menu.
    pub open spec fn shows_field(&self) -> bool {
        self.phase != Phase::Menu
    }

    /// What to paint once a frame has been handled. `handled` is the phase
    /// the session was in when the frame began: its screen is still shown.
    /// The menu comes with an exit button unless the game runs on the web.
    /// The field is painted over it as soon as the session has left the menu.
    pub fn scene(&self, handled: Phase) -> (scene: Scene)
        requires
            self.wf(),
        ensures
            scene.menu == (handled == Phase::Menu),
            scene.exit_button == (handled == Phase::Menu && !self.on_web),
            scene.notice == (handled == Phase::GameOver),
            scene.score == (if self.shows_field() {
                Some(self.score)
            } else {
                None
            }),
            !self.shows_field() ==> scene.snake@.len() == 0 && scene.apples@.len() == 0,
            self.shows_field() ==> scene.snake@.len() == self.snake.squares@.len()
                && scene.apples@.len() == self.apples.apples@.len(),
            self.shows_field() ==> forall|i: int|
                0 <= i < scene.snake@.len() ==> #[trigger] scene.snake@[i] == segment_square(
                    self.snake.squares@,
                    self.snake.collided_squares@,
                    self.grid,
                    i,
                ),
            self.shows_field() ==> forall|i: int|
                0 <= i < scene.apples@.len() ==> #[trigger] scene.apples@[i] == food_square(
                    self.grid,
                    self.apples.apples@[i],
                ),
    {
        let menu: bool = handled == Phase::Menu;
        let field: bool = self.phase != Phase::Menu;
        Scene {
            menu,
            exit_button: menu && !self.on_web,
            notice: handled == Phase::GameOver,
            snake: if field {
                self.snake.draw(&self.grid)
            } else {
                Vec::new()
            },
            apples: if field {
                self.apples.draw()
            } else {
                Vec::new()
            },
            score: if field {
                Some(self.score)
            } else {
                None
            },
        }
    }
}

} // verus!
