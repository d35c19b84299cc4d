use crate::grid::Grid;
use vstd::prelude::*;

verus! {

/// A framed label of the menu. `x` and `y` are the pixel position of its
/// centre; `text_width` and `text_height` are the measured size of the label
/// at `text_size`, in whole pixels.
pub struct Button {
    pub x: i32,
    pub y: i32,
    pub text: String,
    pub text_size: u16,
    pub padding: i32,
    pub text_width: u32,
    pub text_height: u32,
    pub hover: bool,
}

/// Size of the menu's labels.
pub const MENU_TEXT_SIZE: u16 = 75;

/// Space between a menu label and its frame, in pixels.
pub const MENU_PADDING: i32 = 10;

impl Button {
    /// Whether the point lies strictly inside the button's frame: within
    /// half the label plus the padding of the centre, on both axes.
    pub open spec fn covers(&self, x: i32, y: i32) -> bool {
        &&& self.x - self.padding - self.text_width / 2 < x
        &&& x < self.x + self.padding + self.text_width / 2
        &&& self.y - self.padding - self.text_height / 2 < y
        &&& y < self.y + self.padding + self.text_height / 2
    }

    /// A button that the pointer is not over.
    pub fn new(
        x: i32,
        y: i32,
        label: String,
        text_size: u16,
        padding: i32,
        text_width: u32,
        text_height: u32,
    ) -> (b: Button)
        ensures
            b == (Button {
                x,
                y,
                text: label,
                text_size,
                padding,
                text_width,
                text_height,
                hover: false,
            }),
    {
        Button { x, y, text: label, text_size, padding, text_width, text_height, hover: false }
    }

    /// The menu's start button for a viewport: centred across, three fifths
    /// of the way down. The size of its label is measured by the caller.
    pub fn start(grid: &Grid, text_width: u32, text_height: u32) -> (b: Button)
        requires
            grid.wf(),
        ensures
            b.x == grid.width / 2,
            b.y == grid.height / 5 * 3,
            b.text@ == "Start"@,
            b.text_size == MENU_TEXT_SIZE,
            b.padding == MENU_PADDING,
            b.text_width == text_width,
            b.text_height == text_height,
            !b.hover,
    {
        Button::new(
            grid.width / 2,
            grid.height / 5 * 3,
            "Start".to_owned(),
            MENU_TEXT_SIZE,
            MENU_PADDING,
            text_width,
            text_height,
        )
    }

    /// The menu's exit button for a viewport: centred across, five sevenths
    /// of the way down. The size of its label is measured by the caller.
    pub fn exit(grid: &Grid, text_width: u32, text_height: u32) -> (b: Button)
        requires
            grid.wf(),
        ensures
            b.x == grid.width / 2,
            b.y == grid.height / 7 * 5,
            b.text@ == "Exit"@,
            b.text_size == MENU_TEXT_SIZE,
            b.padding == MENU_PADDING,
            b.text_width == text_width,
            b.text_height == text_height,
            !b.hover,
    {
        Button::new(
            grid.width / 2,
            grid.height / 7 * 5,
            "Exit".to_owned(),
            MENU_TEXT_SIZE,
            MENU_PADDING,
            text_width,
            text_height,
        )
    }

    /// Whether the point lies strictly inside the button's frame.
    pub fn is_over(&self, x: i32, y: i32) -> (over: bool)
        ensures
            over == self.covers(x, y),
    {
        let half_width: i64 = (self.text_width / 2) as i64;
        let half_height: i64 = (self.text_height / 2) as i64;
        let reach_x: i64 = self.padding as i64 + half_width;
        let reach_y: i64 = self.padding as i64 + half_height;
        let px: i64 = x as i64;
        let py: i64 = y as i64;
        if px > self.x as i64 - reach_x && px < self.x as i64 + reach_x {
            if py > self.y as i64 - reach_y && py < self.y as i64 + reach_y {
                return true;
            }
        }
        false
    }
}

} // verus!
