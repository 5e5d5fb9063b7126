//! What is common to all window managers: where layout files lie, how a
//! program is started, and the result of a screen shot.

use vstd::prelude::*;
use crate::codes::{EXECUTION_FAILURE, SUCCESS};
use crate::step::{Step, StepView};
use crate::text::{ends_with, has_suffix};

verus! {

/// What follows the home directory in the path of the layout file
/// `file_name`: the layouts' directory, the name, and the ending `.layout`
/// unless the name has it already.
pub open spec fn layout_tail(file_name: Seq<char>) -> Seq<char> {
    if ends_with(file_name, ".layout"@) {
        "/.config/desktop-automater/layouts/"@ + file_name
    } else {
        "/.config/desktop-automater/layouts/"@ + file_name + ".layout"@
    }
}

/// The path of the layout file `file_name` with a tilde for the home
/// directory.
pub fn layout_pattern(file_name: &str) -> (pattern: String)
    ensures
        pattern@ == seq!['~'] + layout_tail(file_name@),
{
    proof {
        reveal_strlit("~/.config/desktop-automater/layouts/");
        reveal_strlit("/.config/desktop-automater/layouts/");
    }
    let mut pattern = String::from_str("~/.config/desktop-automater/layouts/");
    pattern.append(file_name);
    if !has_suffix(file_name, ".layout") {
        pattern.append(".layout");
    }
    pattern
}

/// Calls `shellexpand::tilde`, which puts the home directory in place of a
/// leading tilde where it knows one, and else hands the text back as it
/// is. Which of the two happens depends on the environment; either way
/// what followed a leading tilde ends the result, and a text without a
/// leading tilde comes back unchanged.
#[verifier::external_body]
fn expand_tilde(input: &str) -> (expanded: String)
    ensures
        input@.len() > 0 && input@[0] == '~' ==> ends_with(expanded@, input@.skip(1)),
        input@.len() == 0 || input@[0] != '~' ==> expanded@ == input@,
{
    shellexpand::tilde(input).into_owned()
}

/// The path of the layout file `file_name` below the home directory.
pub fn get_layout_file(file_name: &str) -> (path: String)
    ensures
        ends_with(path@, layout_tail(file_name@)),
{
    let pattern = layout_pattern(file_name);
    assert((seq!['~'] + layout_tail(file_name@)).skip(1) =~= layout_tail(file_name@));
    expand_tilde(pattern.as_str())
}

/// Asks for `program` to be started and left running.
pub fn open_program(program: &str) -> (step: Step)
    ensures
        step@ == (StepView::Spawn { program: program@ }),
{
    Step::Spawn { program: String::from_str(program) }
}

/// The result code of one key stroke: whether it could be sent.
pub fn send_key_stroke(sent: bool) -> (code: u8)
    ensures
        code == if sent {
            SUCCESS
        } else {
            EXECUTION_FAILURE
        },
{
    if sent {
        SUCCESS
    } else {
        EXECUTION_FAILURE
    }
}

/// How long to wait after a key stroke, in milliseconds.
pub const KEY_STROKE_PAUSE_MILLIS: u64 = 20;

/// The result code of a screen shot, from the codes of pressing and of
/// releasing the key: the first of the two that reports a failure.
pub fn screen_shot(press: u8, release: u8) -> (code: u8)
    ensures
        code == if press > 0 {
            press
        } else {
            release
        },
{
    if press > 0 {
        press
    } else if release > 0 {
        release
    } else {
        0
    }
}

} // verus!
