use chip8::input_output::InputOutput;

#[test]
fn a_new_display_is_dark_and_no_key_is_pressed() {
    let io = InputOutput::default();
    assert!(io.pixels.iter().all(|pixel| !*pixel));
    assert!(io.keys.iter().all(|key| !*key));
    assert!(io.draw().is_empty());
}

#[test]
fn set_pixel_turns_one_pixel_on() {
    let mut io = InputOutput::default();
    io.set_pixel(3, 2);
    assert!(io.pixels[2 * 64 + 3]);
    assert_eq!(io.pixels.iter().filter(|pixel| **pixel).count(), 1);
    assert!(io.pixel(3, 2));
    assert!(!io.pixel(2, 3));
    io.set_pixel(3, 2);
    assert!(io.pixel(3, 2));
    io.set_pixel(63, 31);
    assert!(io.pixels[2047]);
    io.set_pixel(0, 0);
    assert!(io.pixels[0]);
    assert_eq!(io.draw(), vec![(0, 0), (3, 2), (63, 31)]);
}

#[test]
fn flip_pixel_reports_a_pixel_that_went_off() {
    let mut io = InputOutput::default();
    assert!(!io.flip_pixel(10, 20));
    assert!(io.pixel(10, 20));
    assert!(io.pixels[20 * 64 + 10]);
    assert!(io.flip_pixel(10, 20));
    assert!(!io.pixel(10, 20));
    assert!(io.pixels.iter().all(|pixel| !*pixel));
}

#[test]
fn clear_pixels_turns_every_pixel_off_and_leaves_the_keys() {
    let mut io = InputOutput::default();
    for x in 0..64 {
        io.set_pixel(x, x / 2);
    }
    io.set_key(4, true);
    io.clear_pixels();
    assert!(io.pixels.iter().all(|pixel| !*pixel));
    assert!(io.key_pressed(4));
}

#[test]
fn draw_lists_the_lit_pixels_row_by_row() {
    let mut io = InputOutput::default();
    io.set_pixel(5, 1);
    io.set_pixel(63, 0);
    io.set_pixel(0, 1);
    io.set_pixel(0, 31);
    io.set_pixel(1, 0);
    assert_eq!(io.draw(), vec![(1, 0), (63, 0), (0, 1), (5, 1), (0, 31)]);
}

#[test]
fn draw_lists_a_full_display() {
    let mut io = InputOutput::default();
    for y in 0..32 {
        for x in 0..64 {
            io.set_pixel(x, y);
        }
    }
    let lit = io.draw();
    assert_eq!(lit.len(), 2048);
    for (place, position) in lit.iter().enumerate() {
        assert_eq!(*position, ((place % 64) as u8, (place / 64) as u8));
    }
}

#[test]
fn keys_are_pressed_and_released() {
    let mut io = InputOutput::default();
    io.set_key(0, true);
    io.set_key(15, true);
    assert!(io.key_pressed(0));
    assert!(io.key_pressed(15));
    assert!(!io.key_pressed(7));
    assert!(io.keys[15]);
    io.set_key(15, false);
    assert!(!io.key_pressed(15));
    io.set_key(16, true);
    io.set_key(255, true);
    assert!(!io.key_pressed(16));
    assert!(!io.key_pressed(255));
    assert_eq!(io.keys.iter().filter(|key| **key).count(), 1);
    assert!(io.pixels.iter().all(|pixel| !*pixel));
}
