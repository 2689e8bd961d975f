use termclock::mode::{select_mode, Mode};
use termclock::palette::{get_color, Color, DEFAULT_COLOR_INDEX};

#[test]
fn indices_one_to_nine_run_through_the_palette() {
    assert_eq!(get_color(1), Color::Red);
    assert_eq!(get_color(2), Color::Green);
    assert_eq!(get_color(3), Color::Yellow);
    assert_eq!(get_color(4), Color::Blue);
    assert_eq!(get_color(5), Color::Magenta);
    assert_eq!(get_color(6), Color::Cyan);
    assert_eq!(get_color(7), Color::White);
    assert_eq!(get_color(8), Color::Gray);
    assert_eq!(get_color(9), Color::Black);
}

#[test]
fn other_indices_fall_back_to_white() {
    assert_eq!(get_color(0), Color::White);
    let mut index: u8 = 10;
    loop {
        assert_eq!(get_color(index), Color::White);
        if index == 255 {
            break;
        }
        index += 1;
    }
}

#[test]
fn the_default_colour_is_green() {
    assert_eq!(DEFAULT_COLOR_INDEX, 2);
    assert_eq!(get_color(DEFAULT_COLOR_INDEX), Color::Green);
}

#[test]
fn target_time_goes_before_everything() {
    let t = Some("12:00:00".to_string());
    let d = Some("3h".to_string());
    assert_eq!(select_mode(t.clone(), d.clone(), true), Mode::TargetTime("12:00:00".to_string()));
    assert_eq!(select_mode(t.clone(), d, false), Mode::TargetTime("12:00:00".to_string()));
    assert_eq!(select_mode(t.clone(), None, true), Mode::TargetTime("12:00:00".to_string()));
    assert_eq!(select_mode(t, None, false), Mode::TargetTime("12:00:00".to_string()));
}

#[test]
fn duration_goes_before_the_date_flag() {
    let d = Some("5x".to_string());
    assert_eq!(select_mode(None, d.clone(), true), Mode::Duration("5x".to_string()));
    assert_eq!(select_mode(None, d, false), Mode::Duration("5x".to_string()));
}

#[test]
fn date_flag_goes_before_the_clock() {
    assert_eq!(select_mode(None, None, true), Mode::Date);
    assert_eq!(select_mode(None, None, false), Mode::Clock);
}
