use chip8::display::{clear, draw_row, DISPLAY_HEIGHT, DISPLAY_PIXELS, DISPLAY_WIDTH};

fn lit(display: &[bool; 2048]) -> Vec<usize> {
    (0..2048).filter(|pixel| display[*pixel]).collect()
}

#[test]
fn display_is_64_by_32() {
    assert_eq!(DISPLAY_WIDTH, 64);
    assert_eq!(DISPLAY_HEIGHT, 32);
    assert_eq!(DISPLAY_PIXELS, 2048);
}

#[test]
fn clear_turns_every_pixel_off() {
    let mut display = [true; 2048];
    clear(&mut display);
    assert_eq!(lit(&display), Vec::<usize>::new());
}

#[test]
fn most_significant_bit_is_the_leftmost_pixel() {
    let mut display = [false; 2048];
    assert!(!draw_row(&mut display, 0b1000_0000, 0, 0));
    assert_eq!(lit(&display), vec![0]);
}

#[test]
fn least_significant_bit_is_the_rightmost_pixel() {
    let mut display = [false; 2048];
    assert!(!draw_row(&mut display, 0b0000_0001, 0, 0));
    assert_eq!(lit(&display), vec![7]);
}

#[test]
fn row_is_drawn_at_its_place() {
    let mut display = [false; 2048];
    assert!(!draw_row(&mut display, 0b1010_0101, 10, 3));
    assert_eq!(lit(&display), vec![3 * 64 + 10, 3 * 64 + 12, 3 * 64 + 15, 3 * 64 + 17]);
}

#[test]
fn row_is_cut_off_at_the_right_edge() {
    let mut display = [false; 2048];
    assert!(!draw_row(&mut display, 0xFF, 60, 1));
    assert_eq!(lit(&display), vec![64 + 60, 64 + 61, 64 + 62, 64 + 63]);
}

#[test]
fn row_at_the_last_column_draws_one_pixel() {
    let mut display = [false; 2048];
    assert!(!draw_row(&mut display, 0xFF, 63, 31));
    assert_eq!(lit(&display), vec![2047]);
}

#[test]
fn row_that_just_fits_is_drawn_whole() {
    let mut display = [false; 2048];
    assert!(!draw_row(&mut display, 0xFF, 56, 0));
    assert_eq!(lit(&display), vec![56, 57, 58, 59, 60, 61, 62, 63]);
}

#[test]
fn drawing_over_a_lit_pixel_collides_and_turns_it_off() {
    let mut display = [false; 2048];
    display[5] = true;
    assert!(draw_row(&mut display, 0b0000_0110, 0, 0));
    assert_eq!(lit(&display), vec![6]);
}

#[test]
fn lit_pixel_under_a_dark_sprite_bit_is_no_collision() {
    let mut display = [false; 2048];
    display[4] = true;
    assert!(!draw_row(&mut display, 0b0000_0110, 0, 0));
    assert_eq!(lit(&display), vec![4, 5, 6]);
}

#[test]
fn lit_pixel_beyond_the_cut_is_no_collision() {
    let mut display = [false; 2048];
    display[128] = true;
    assert!(!draw_row(&mut display, 0xFF, 60, 1));
    assert_eq!(lit(&display), vec![64 + 60, 64 + 61, 64 + 62, 64 + 63, 128]);
}

#[test]
fn drawing_a_row_twice_restores_the_display() {
    let mut display = [false; 2048];
    display[70] = true;
    display[200] = true;
    let before = display;
    assert!(draw_row(&mut display, 0b1111_0000, 4, 1));
    assert_ne!(display, before);
    draw_row(&mut display, 0b1111_0000, 4, 1);
    assert_eq!(display, before);
}
