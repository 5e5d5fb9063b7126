//! Opening a program on a desktop: the focus switch comes first, the program
//! only after it.

use std::path::PathBuf;
use vstd::prelude::*;
use crate::channel::{focus_line, focus_text, get_cmd_file, looked_up, send_cmd_to, sent};
use crate::codes::{ARGUMENT_COUNT, CHANNEL_UNAVAILABLE, EXECUTION_FAILURE, PARSE_ERROR, SUCCESS};
use crate::decimal::{decimal, parse_i32, parse_i32_spec, render_decimal};
use crate::layout::{command_text, launch_of, ProgramView};
use crate::step::{advanced, Step, StepView};
use crate::text::{
    first_space, has_space, lemma_first_space, lemma_first_space_is, split_at_space,
};

verus! {

/// A request to start a command on a desktop: the tag to switch to, as it
/// is written on the command channel, and the command.
#[derive(Clone, Debug, PartialEq, Eq)]
pub struct OpenRequest {
    pub tag: String,
    pub command: String,
}

/// An `OpenRequest` as plain values.
pub struct OpenRequestView {
    pub tag: Seq<char>,
    pub command: Seq<char>,
}

impl View for OpenRequest {
    type V = OpenRequestView;

    open spec fn view(&self) -> OpenRequestView {
        OpenRequestView { tag: self.tag@, command: self.command@ }
    }
}

/// The index of the tag that shows desktop `desktop`: desktops are counted
/// from one, tags from zero.
pub open spec fn tag_index(desktop: i32) -> int {
    desktop - 1
}

/// What the argument `<desktop> <command>` asks for. The desktop is what
/// stands before the first space, the command all that follows it. An
/// argument without a space has too few parts; a desktop that is no
/// decimal 32-bit number cannot be read.
pub open spec fn open_request_of(args: Seq<char>) -> Result<OpenRequestView, u8> {
    if !has_space(args) {
        Err(ARGUMENT_COUNT)
    } else {
        match parse_i32_spec(args.take(first_space(args))) {
            None => Err(PARSE_ERROR),
            Some(desktop) => Ok(
                OpenRequestView {
                    tag: decimal(tag_index(desktop)),
                    command: args.skip(first_space(args) + 1),
                },
            ),
        }
    }
}

/// What opening on a desktop comes to, given where the command pipe was
/// found: an argument that cannot be read ends the command with its error
/// code; else the focus is switched to the desktop's tag first, and the
/// command is started only once that line is appended.
pub open spec fn opened(file: Option<PathBuf>, args: Seq<char>) -> StepView {
    match open_request_of(args) {
        Err(code) => StepView::Done(code),
        Ok(request) => focus_then_open_of(file, request),
    }
}

/// The first step of a request that was read: the focus switch, with the
/// command waiting behind it, or the failure of the channel.
pub open spec fn focus_then_open_of(file: Option<PathBuf>, request: OpenRequestView) -> StepView {
    match sent(file, focus_text(request.tag)) {
        StepView::Write { path, line, then } => StepView::Write {
            path,
            line,
            then: Some(request.command),
        },
        other => other,
    }
}

/// Reads the argument `<desktop> <command>`.
pub fn open_request(args: &str) -> (request: Result<OpenRequest, u8>)
    ensures
        match open_request_of(args@) {
            Ok(view) => request matches Ok(r) && r@ == view,
            Err(code) => request matches Err(c) && c == code,
        },
{
    let (desktop, cmd) = match split_at_space(args) {
        Some(parts) => parts,
        None => {
            return Err(ARGUMENT_COUNT);
        },
    };
    match parse_i32(desktop) {
        Some(i) => {
            let tag = render_decimal(i as i64 - 1);
            Ok(OpenRequest { tag, command: String::from_str(cmd) })
        },
        None => Err(PARSE_ERROR),
    }
}

/// The first step of a request that was read, for the command pipe
/// `file`.
pub fn focus_then_open(file: Option<PathBuf>, request: OpenRequest) -> (step: Step)
    ensures
        step@ == focus_then_open_of(file, request@),
{
    let line = focus_line(request.tag.as_str());
    send_cmd_to(file, line.as_str()).and_then_spawn(request.command)
}

/// Starts a command on a desktop, from the argument `<desktop> <command>`:
/// reads the argument, looks for the command pipe, and asks for the focus
/// switch with the command waiting behind it.
pub fn open_on_desktop(args: &str) -> (step: Step)
    ensures
        exists|file: Option<PathBuf>| looked_up(file) && step@ == #[trigger] opened(file, args@),
{
    match open_request(args) {
        Ok(request) => {
            let file = get_cmd_file();
            let step = focus_then_open(file, request);
            assert(looked_up(file) && step@ == opened(file, args@));
            step
        },
        Err(code) => {
            let step = Step::Done(code);
            assert(looked_up(None) && step@ == opened(None, args@));
            step
        },
    }
}

/// No program is started after a focus switch that failed. Whatever the
/// argument and wherever the pipe was looked for: a command that ends
/// before its line is appended, or whose line cannot be appended, ends with
/// a result code and asks for no program; and where the argument can be
/// read, that code is the channel's failure code.
pub proof fn lemma_failed_focus_starts_nothing(file: Option<PathBuf>, args: Seq<char>)
    ensures
        advanced(opened(file, args), false) is Done,
        open_request_of(args) is Ok ==> advanced(opened(file, args), false) == StepView::Done(
            CHANNEL_UNAVAILABLE,
        ),
        open_request_of(args) is Ok && file is None ==> opened(file, args) == StepView::Done(
            CHANNEL_UNAVAILABLE,
        ),
{
}

/// Where the argument can be read and the pipe is there, the command goes
/// through three steps: the focus switch to the tag one below the desktop
/// is appended; once it is out, the command is started; and the result is
/// success if it started, the execution failure code if it did not.
pub proof fn lemma_open_runs_after_focus(path: PathBuf, args: Seq<char>, started: bool)
    requires
        open_request_of(args) is Ok,
    ensures
        opened(Some(path), args) == (StepView::Write {
            path,
            line: focus_text(open_request_of(args)->Ok_0.tag) + seq!['\n'],
            then: Some(open_request_of(args)->Ok_0.command),
        }),
        advanced(opened(Some(path), args), true) == (StepView::Spawn {
            program: open_request_of(args)->Ok_0.command,
        }),
        advanced(advanced(opened(Some(path), args), true), started) == StepView::Done(
            if started {
                SUCCESS
            } else {
                EXECUTION_FAILURE
            },
        ),
{
}

/// The launch request of a program on a desktop whose name holds no space
/// reads back as that desktop and that program's command: the desktop's
/// number decides the tag, and the command is the program's name and
/// arguments joined by single spaces.
pub proof fn lemma_launch_reads_back(desktop: Seq<char>, program: ProgramView)
    requires
        !has_space(desktop),
    ensures
        open_request_of(launch_of(desktop, program).arg) == match parse_i32_spec(desktop) {
            Some(number) => Ok(
                OpenRequestView {
                    tag: decimal(tag_index(number)),
                    command: command_text(program.name, program.args),
                },
            ),
            None => Err::<OpenRequestView, u8>(PARSE_ERROR),
        },
{
    let command = command_text(program.name, program.args);
    let arg = launch_of(desktop, program).arg;
    lemma_first_space(desktop);
    lemma_first_space_is(arg, desktop.len() as int);
    assert(arg.take(desktop.len() as int) =~= desktop);
    assert(arg.skip(desktop.len() as int + 1) =~= command);
}

} // verus!
