//! The display buffer and the countdown timers on their own.

use chip_8::screen::Screen;
use chip_8::timer::Timer;

#[test]
fn a_new_screen_is_black() {
    let screen = Screen::new();
    assert_eq!(screen.get().len(), 64 * 32);
    assert!(screen.get().iter().all(|&c| c == 0));
}

#[test]
fn invert_toggles_exactly_the_targeted_cell() {
    let mut screen = Screen::new();
    let lit = screen.invert(3, 2);
    assert!(lit);
    for (i, &cell) in screen.get().iter().enumerate() {
        if i == 2 * 64 + 3 {
            assert_eq!(cell, 1);
        } else {
            assert_eq!(cell, 0);
        }
    }
}

#[test]
fn double_invert_restores_the_cell() {
    let mut screen = Screen::new();
    assert!(screen.invert(63, 31));
    assert!(!screen.invert(63, 31));
    assert!(screen.get().iter().all(|&c| c == 0));
    assert!(screen.invert(63, 31));
    assert_eq!(screen.get()[31 * 64 + 63], 1);
}

#[test]
fn clear_blacks_out_a_lit_screen() {
    let mut screen = Screen::new();
    screen.invert(0, 0);
    screen.invert(10, 20);
    screen.clear();
    assert!(screen.get().iter().all(|&c| c == 0));
}

#[test]
fn timer_decrement_saturates_at_zero() {
    let mut timer = Timer::new();
    assert_eq!(timer.get(), 0);
    timer.decrement();
    assert_eq!(timer.get(), 0);
    timer.set(2);
    timer.decrement();
    assert_eq!(timer.get(), 1);
    timer.decrement();
    assert_eq!(timer.get(), 0);
    timer.decrement();
    assert_eq!(timer.get(), 0);
}
