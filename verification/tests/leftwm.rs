use desktop_automater::layout::{DesktopLayout, Launch, Program};
use desktop_automater::leftwm::{layout_loaded, leftwm_switch, load_layout, Dispatch};
use desktop_automater::step::Step;

fn sends(answer: Dispatch, text: &str, program: Option<&str>) -> bool {
    match answer {
        Dispatch::Handled(Step::Done(code)) => code == 5,
        Dispatch::Handled(Step::Write { path: _, line, then }) => {
            line == format!("{}\n", text) && then == program.map(|p| p.to_string())
        }
        _ => false,
    }
}

#[test]
fn an_unknown_command_is_not_handled() {
    assert_eq!(leftwm_switch("unknown-cmd", ""), Dispatch::NotHandled);
}

#[test]
fn near_misses_are_not_handled() {
    assert_eq!(leftwm_switch("", ""), Dispatch::NotHandled);
    assert_eq!(leftwm_switch("move-to ", "1"), Dispatch::NotHandled);
    assert_eq!(leftwm_switch("Move-To", "1"), Dispatch::NotHandled);
    assert_eq!(leftwm_switch("open", "1 foo"), Dispatch::NotHandled);
    assert_eq!(leftwm_switch("open-in", "1 foo"), Dispatch::NotHandled);
    assert_eq!(leftwm_switch("load-layouts", "main"), Dispatch::NotHandled);
}

#[test]
fn move_to_sends_the_window_to_the_tag() {
    assert!(sends(leftwm_switch("move-to", "2"), "SendWindowToTag 2", None));
}

#[test]
fn close_focused_sends_the_close_line() {
    assert!(sends(leftwm_switch("close-focused", ""), "CloseWindow", None));
    assert!(sends(leftwm_switch("close-focused", "ignored"), "CloseWindow", None));
}

#[test]
fn focus_on_sends_the_workspace_to_the_tag() {
    assert!(sends(leftwm_switch("focus-on", "3"), "SendWorkspaceToTag 0 3", None));
}

#[test]
fn open_at_and_open_on_are_the_same_command() {
    assert!(sends(leftwm_switch("open-at", "2 foo"), "SendWorkspaceToTag 0 1", Some("foo")));
    assert!(sends(leftwm_switch("open-on", "2 foo"), "SendWorkspaceToTag 0 1", Some("foo")));
}

#[test]
fn open_on_hands_on_the_errors_of_its_argument() {
    assert_eq!(leftwm_switch("open-on", "abc foo"), Dispatch::Handled(Step::Done(2)));
    assert_eq!(leftwm_switch("open-at", "1"), Dispatch::Handled(Step::Done(7)));
}

#[test]
fn load_layout_asks_for_the_layout_by_name() {
    assert_eq!(
        leftwm_switch("load-layout", "main"),
        Dispatch::Handled(Step::Load { layout: "main".to_string() })
    );
    assert_eq!(load_layout("work.layout"), Step::Load { layout: "work.layout".to_string() });
}

#[test]
fn a_layout_that_was_not_read_ends_with_its_code() {
    assert_eq!(layout_loaded(Err(2)), Step::Done(2));
    assert_eq!(layout_loaded(Err(4)), Step::Done(4));
}

#[test]
fn a_layout_that_was_read_is_laid_out_as_units() {
    let layouts = vec![
        DesktopLayout {
            desktop: "1".to_string(),
            asynchronous: None,
            programs: vec![Program {
                name: "bar".to_string(),
                args: Some(vec!["--top".to_string()]),
                delay: Some(1),
            }],
        },
        DesktopLayout {
            desktop: "2".to_string(),
            asynchronous: Some(true),
            programs: vec![Program { name: "web".to_string(), args: None, delay: None }],
        },
    ];
    assert_eq!(
        layout_loaded(Ok(layouts)),
        Step::Execute {
            units: vec![
                vec![Launch { arg: "1 bar --top".to_string(), pause_millis: 500 }],
                vec![Launch { arg: "2 web".to_string(), pause_millis: 1000 }],
            ]
        }
    );
}
