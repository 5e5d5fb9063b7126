use desktop_automater::layout::{
    get_progs, init_layout, init_layouts, make_cmd, pause_millis, set_up_desktop, DesktopLayout,
    Launch, Program,
};

fn program(name: &str, args: &[&str], delay: Option<u8>) -> Program {
    Program {
        name: name.to_string(),
        args: Some(args.iter().map(|a| a.to_string()).collect()),
        delay,
    }
}

fn bare(name: &str) -> Program {
    Program { name: name.to_string(), args: None, delay: None }
}

fn launch(arg: &str, pause_millis: u64) -> Launch {
    Launch { arg: arg.to_string(), pause_millis }
}

#[test]
fn make_cmd_without_arguments_is_the_name() {
    assert_eq!(make_cmd("firefox", &None), "firefox");
    assert_eq!(make_cmd("firefox", &Some(vec![])), "firefox");
}

#[test]
fn make_cmd_joins_with_single_spaces() {
    let args = Some(vec!["-e".to_string(), "htop".to_string()]);
    assert_eq!(make_cmd("alacritty", &args), "alacritty -e htop");
    let one = Some(vec!["--new-window".to_string()]);
    assert_eq!(make_cmd("firefox", &one), "firefox --new-window");
}

#[test]
fn make_cmd_keeps_empty_and_spaced_arguments() {
    let args = Some(vec!["".to_string(), "a b".to_string(), "".to_string()]);
    assert_eq!(make_cmd("x", &args), "x  a b ");
    assert_eq!(make_cmd("", &Some(vec!["a".to_string()])), " a");
}

#[test]
fn make_cmd_agrees_with_join() {
    let args = vec!["one".to_string(), "two".to_string(), "three".to_string()];
    let mut tokens = vec!["prog".to_string()];
    tokens.extend(args.clone());
    assert_eq!(make_cmd("prog", &Some(args)), tokens.join(" "));
}

#[test]
fn pause_is_half_a_second_for_each_unit_of_delay() {
    assert_eq!(pause_millis(Some(2)), 1000);
    assert_eq!(pause_millis(Some(1)), 500);
    assert_eq!(pause_millis(Some(3)), 1500);
    assert_eq!(pause_millis(Some(255)), 127500);
}

#[test]
fn pause_without_delay_is_one_second() {
    assert_eq!(pause_millis(None), 1000);
}

#[test]
fn pause_with_delay_zero_is_nothing() {
    assert_eq!(pause_millis(Some(0)), 0);
}

#[test]
fn get_progs_keeps_order_and_delays() {
    let programs =
        vec![program("a", &["1"], Some(2)), bare("b"), program("c", &["x", "y"], Some(0))];
    assert_eq!(
        get_progs(&programs),
        vec![
            ("a 1".to_string(), Some(2)),
            ("b".to_string(), None),
            ("c x y".to_string(), Some(0)),
        ]
    );
}

#[test]
fn get_progs_of_nothing_is_nothing() {
    assert_eq!(get_progs(&vec![]), vec![]);
}

#[test]
fn set_up_desktop_asks_for_each_program_in_order() {
    let programs =
        vec![program("a", &["1"], Some(2)), bare("b"), program("c", &["x", "y"], Some(0))];
    assert_eq!(
        set_up_desktop("3", &programs),
        vec![launch("3 a 1", 1000), launch("3 b", 1000), launch("3 c x y", 0)]
    );
}

#[test]
fn set_up_desktop_without_programs_asks_for_nothing() {
    assert_eq!(set_up_desktop("3", &vec![]), vec![]);
}

#[test]
fn set_up_desktop_takes_the_name_as_it_is() {
    assert_eq!(set_up_desktop("web", &vec![bare("firefox")]), vec![launch("web firefox", 1000)]);
    assert_eq!(set_up_desktop("", &vec![bare("firefox")]), vec![launch(" firefox", 1000)]);
}

#[test]
fn init_layout_is_the_set_up_of_its_desktop() {
    let layout = DesktopLayout {
        desktop: "2".to_string(),
        asynchronous: Some(true),
        programs: vec![bare("a"), program("b", &["-x"], Some(4))],
    };
    assert_eq!(init_layout(&layout), vec![launch("2 a", 1000), launch("2 b -x", 2000)]);
    assert_eq!(init_layout(&layout), set_up_desktop("2", &layout.programs));
}

#[test]
fn init_layouts_runs_the_desktops_one_after_another() {
    let layouts = vec![
        DesktopLayout {
            desktop: "1".to_string(),
            asynchronous: None,
            programs: vec![bare("bar"), bare("tray")],
        },
        DesktopLayout { desktop: "2".to_string(), asynchronous: Some(false), programs: vec![] },
        DesktopLayout {
            desktop: "3".to_string(),
            asynchronous: None,
            programs: vec![program("term", &["-e", "top"], Some(1))],
        },
    ];
    assert_eq!(
        init_layouts(&layouts),
        vec![launch("1 bar", 1000), launch("1 tray", 1000), launch("3 term -e top", 500)]
    );
}

#[test]
fn init_layouts_of_nothing_is_nothing() {
    assert_eq!(init_layouts(&vec![]), vec![]);
}
