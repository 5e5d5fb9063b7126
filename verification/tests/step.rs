use desktop_automater::layout::Launch;
use desktop_automater::step::Step;
use std::path::PathBuf;

fn write(then: Option<&str>) -> Step {
    Step::Write {
        path: PathBuf::from("/run/user/1000/leftwm/command-0.pipe"),
        line: "SendWorkspaceToTag 0 0\n".to_string(),
        then: then.map(|t| t.to_string()),
    }
}

#[test]
fn a_written_line_without_a_program_ends_in_success() {
    assert_eq!(write(None).advance(true), Step::Done(0));
}

#[test]
fn a_written_line_leads_to_the_program_behind_it() {
    assert_eq!(write(Some("foo --bar")).advance(true), Step::Spawn { program: "foo --bar".to_string() });
}

#[test]
fn a_line_that_was_not_written_ends_with_the_channel_code() {
    assert_eq!(write(None).advance(false), Step::Done(5));
}

#[test]
fn no_program_is_started_after_a_line_that_was_not_written() {
    assert_eq!(write(Some("foo")).advance(false), Step::Done(5));
}

#[test]
fn a_started_program_ends_in_success() {
    assert_eq!(Step::Spawn { program: "foo".to_string() }.advance(true), Step::Done(0));
}

#[test]
fn a_program_that_did_not_start_ends_with_the_execution_code() {
    assert_eq!(Step::Spawn { program: "foo".to_string() }.advance(false), Step::Done(4));
}

#[test]
fn a_program_that_was_run_ends_by_its_outcome() {
    let run = || Step::Run { program: "xbacklight".to_string(), args: vec!["-inc".to_string()] };
    assert_eq!(run().advance(true), Step::Done(0));
    assert_eq!(run().advance(false), Step::Done(4));
}

#[test]
fn other_steps_stay_as_they_are() {
    assert_eq!(Step::Done(7).advance(true), Step::Done(7));
    assert_eq!(Step::Done(7).advance(false), Step::Done(7));
    assert_eq!(Step::Done(0).advance(false), Step::Done(0));
    let load = || Step::Load { layout: "main".to_string() };
    assert_eq!(load().advance(true), load());
    assert_eq!(load().advance(false), load());
    let execute =
        || Step::Execute { units: vec![vec![Launch { arg: "1 a".to_string(), pause_millis: 0 }]] };
    assert_eq!(execute().advance(true), execute());
    assert_eq!(execute().advance(false), execute());
}

#[test]
fn and_then_spawn_puts_the_program_behind_a_line() {
    assert_eq!(write(None).and_then_spawn("foo".to_string()), write(Some("foo")));
    assert_eq!(write(Some("old")).and_then_spawn("new".to_string()), write(Some("new")));
}

#[test]
fn and_then_spawn_leaves_an_ended_command_alone() {
    assert_eq!(Step::Done(5).and_then_spawn("foo".to_string()), Step::Done(5));
}
