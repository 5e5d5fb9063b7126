use desktop_automater::common::{
    get_layout_file, layout_pattern, open_program, screen_shot, send_key_stroke,
    KEY_STROKE_PAUSE_MILLIS,
};
use desktop_automater::step::Step;

#[test]
fn layout_pattern_adds_the_ending_where_it_is_missing() {
    assert_eq!(layout_pattern("main"), "~/.config/desktop-automater/layouts/main.layout");
    assert_eq!(layout_pattern(""), "~/.config/desktop-automater/layouts/.layout");
    assert_eq!(layout_pattern("main.lay"), "~/.config/desktop-automater/layouts/main.lay.layout");
}

#[test]
fn layout_pattern_keeps_a_name_that_has_the_ending() {
    assert_eq!(layout_pattern("main.layout"), "~/.config/desktop-automater/layouts/main.layout");
    assert_eq!(layout_pattern(".layout"), "~/.config/desktop-automater/layouts/.layout");
}

#[test]
fn get_layout_file_ends_with_the_place_below_home() {
    assert!(get_layout_file("main").ends_with("/.config/desktop-automater/layouts/main.layout"));
    assert!(get_layout_file("a.layout").ends_with("/.config/desktop-automater/layouts/a.layout"));
}

#[test]
fn get_layout_file_puts_the_home_directory_for_the_tilde() {
    let home = shellexpand::tilde("~").into_owned();
    assert_eq!(
        get_layout_file("main"),
        format!("{}/.config/desktop-automater/layouts/main.layout", home)
    );
    if home != "~" {
        assert!(!get_layout_file("main").starts_with('~'));
        assert_ne!(get_layout_file("main"), layout_pattern("main"));
    }
}

#[test]
fn open_program_asks_for_the_program_as_it_is() {
    assert_eq!(open_program("firefox"), Step::Spawn { program: "firefox".to_string() });
    assert_eq!(
        open_program("alacritty -e htop"),
        Step::Spawn { program: "alacritty -e htop".to_string() }
    );
}

#[test]
fn a_key_stroke_succeeds_or_fails_with_the_execution_code() {
    assert_eq!(send_key_stroke(true), 0);
    assert_eq!(send_key_stroke(false), 4);
    assert_eq!(KEY_STROKE_PAUSE_MILLIS, 20);
}

#[test]
fn screen_shot_reports_the_first_failure() {
    assert_eq!(screen_shot(0, 0), 0);
    assert_eq!(screen_shot(4, 0), 4);
    assert_eq!(screen_shot(0, 4), 4);
    assert_eq!(screen_shot(4, 5), 4);
    assert_eq!(screen_shot(5, 4), 5);
}
