use snake::button::{MENU_PADDING, MENU_TEXT_SIZE};
use snake::{Button, Grid};

fn sample() -> Button {
    Button::new(100, 50, "Start".to_string(), 75, 10, 41, 21)
}

#[test]
fn new_button_is_not_lit() {
    let button = sample();
    assert_eq!(button.x, 100);
    assert_eq!(button.y, 50);
    assert_eq!(button.text, "Start");
    assert_eq!(button.text_size, 75);
    assert_eq!(button.padding, 10);
    assert_eq!(button.text_width, 41);
    assert_eq!(button.text_height, 21);
    assert!(!button.hover);
}

#[test]
fn pointer_inside_the_frame_is_over_the_button() {
    let button = sample();
    assert!(button.is_over(100, 50));
    assert!(button.is_over(71, 31));
    assert!(button.is_over(129, 69));
    assert!(button.is_over(71, 69));
    assert!(button.is_over(129, 31));
}

#[test]
fn pointer_on_the_frame_is_not_over_the_button() {
    let button = sample();
    assert!(!button.is_over(70, 50));
    assert!(!button.is_over(130, 50));
    assert!(!button.is_over(100, 30));
    assert!(!button.is_over(100, 70));
}

#[test]
fn pointer_beside_the_frame_is_not_over_the_button() {
    let button = sample();
    assert!(!button.is_over(0, 50));
    assert!(!button.is_over(100, 500));
    assert!(!button.is_over(-100, -50));
}

#[test]
fn button_without_label_or_padding_covers_nothing() {
    let button = Button::new(100, 50, String::new(), 75, 0, 1, 1);
    assert!(!button.is_over(100, 50));
}

#[test]
fn is_over_does_not_wrap_at_the_limits() {
    let button = Button::new(i32::MAX, i32::MIN, String::new(), 75, i32::MAX, u32::MAX, u32::MAX);
    assert!(button.is_over(i32::MAX, i32::MIN));
    assert!(button.is_over(0, 0));
    let narrow = Button::new(i32::MIN, i32::MIN, String::new(), 75, 5, 0, 0);
    assert!(narrow.is_over(i32::MIN, i32::MIN));
    assert!(!narrow.is_over(i32::MAX, i32::MIN));
    let inverted = Button::new(0, 0, String::new(), 75, i32::MIN, 0, 0);
    assert!(!inverted.is_over(0, 0));
}

#[test]
fn start_button_sits_three_fifths_down() {
    let grid = Grid::new(805, 603, 20);
    let button = Button::start(&grid, 120, 40);
    assert_eq!(button.x, 402);
    assert_eq!(button.y, 360);
    assert_eq!(button.text, "Start");
    assert_eq!(button.text_size, 75);
    assert_eq!(button.padding, 10);
    assert_eq!(button.text_width, 120);
    assert_eq!(button.text_height, 40);
    assert!(!button.hover);
}

#[test]
fn exit_button_sits_five_sevenths_down() {
    let grid = Grid::new(805, 603, 20);
    let button = Button::exit(&grid, 90, 40);
    assert_eq!(button.x, 402);
    assert_eq!(button.y, 430);
    assert_eq!(button.text, "Exit");
    assert_eq!(button.text_size, MENU_TEXT_SIZE);
    assert_eq!(button.padding, MENU_PADDING);
    assert_eq!(button.text_width, 90);
    assert_eq!(button.text_height, 40);
    assert!(!button.hover);
}
