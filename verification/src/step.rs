//! The steps of a command: what is to be done outside this library, and what
//! follows once it was done.

use std::path::PathBuf;
use vstd::prelude::*;
use crate::codes::{CHANNEL_UNAVAILABLE, EXECUTION_FAILURE, SUCCESS};
use crate::layout::{Launch, LaunchView};

verus! {

/// A path of the file system. Nothing is said of what it holds.
#[verifier::external_type_specification]
#[verifier::external_body]
pub struct ExPathBuf(std::path::PathBuf);

/// Where a command stands: either it has ended with a result code, or some
/// work outside this library is to be done before it can go on.
#[derive(Debug, PartialEq, Eq)]
pub enum Step {
    /// The command has ended with this result code.
    Done(u8),
    /// Append `line` to the file at `path`, the whole line as one
    /// operation. Where `then` holds a program, it is to be started once
    /// the line is appended.
    Write { path: PathBuf, line: String, then: Option<String> },
    /// Start `program` and leave it running.
    Spawn { program: String },
    /// Run `program` with `args` and wait for it to end.
    Run { program: String, args: Vec<String> },
    /// Read the layout with this name.
    Load { layout: String },
    /// Run these units of work side by side, the launches of each unit in
    /// order, and gather their result codes unit by unit.
    Execute { units: Vec<Vec<Launch>> },
}

/// A `Step` as plain values.
pub enum StepView {
    Done(u8),
    Write { path: PathBuf, line: Seq<char>, then: Option<Seq<char>> },
    Spawn { program: Seq<char> },
    Run { program: Seq<char>, args: Seq<Seq<char>> },
    Load { layout: Seq<char> },
    Execute { units: Seq<Seq<LaunchView>> },
}

impl View for Step {
    type V = StepView;

    open spec fn view(&self) -> StepView {
        match *self {
            Step::Done(code) => StepView::Done(code),
            Step::Write { path, line, then } => StepView::Write {
                path,
                line: line@,
                then: match then {
                    Some(program) => Some(program@),
                    None => None,
                },
            },
            Step::Spawn { program } => StepView::Spawn { program: program@ },
            Step::Run { program, args } => StepView::Run {
                program: program@,
                args: args.deep_view(),
            },
            Step::Load { layout } => StepView::Load { layout: layout@ },
            Step::Execute { units } => StepView::Execute { units: units.deep_view() },
        }
    }
}

/// The step that follows `step` once its outside work was tried and has
/// succeeded (`ok`) or failed. A line that was appended leads to the start
/// of the program that waits behind it, if there is one; a line that could
/// not be appended ends the command with the channel's failure code, and no
/// program is started. A program that could not be started or run ends the
/// command with the execution failure code. Every other step stays as it
/// is: its outside work does not end in a plain success or failure.
pub open spec fn advanced(step: StepView, ok: bool) -> StepView {
    match step {
        StepView::Write { path, line, then } => if !ok {
            StepView::Done(CHANNEL_UNAVAILABLE)
        } else {
            match then {
                Some(program) => StepView::Spawn { program },
                None => StepView::Done(SUCCESS),
            }
        },
        StepView::Spawn { program } => StepView::Done(
            if ok {
                SUCCESS
            } else {
                EXECUTION_FAILURE
            },
        ),
        StepView::Run { program, args } => StepView::Done(
            if ok {
                SUCCESS
            } else {
                EXECUTION_FAILURE
            },
        ),
        other => other,
    }
}

impl Step {
    /// Takes in whether the outside work of this step succeeded and gives
    /// the step that follows.
    pub fn advance(self, ok: bool) -> (next: Step)
        ensures
            next@ == advanced(self@, ok),
    {
        match self {
            Step::Write { path, line, then } => {
                if !ok {
                    Step::Done(CHANNEL_UNAVAILABLE)
                } else {
                    match then {
                        Some(program) => Step::Spawn { program },
                        None => Step::Done(SUCCESS),
                    }
                }
            },
            Step::Spawn { program } => Step::Done(if ok { SUCCESS } else { EXECUTION_FAILURE }),
            Step::Run { program, args } => Step::Done(if ok { SUCCESS } else { EXECUTION_FAILURE }),
            other => other,
        }
    }

    /// Puts `program` behind a line that is to be appended, to be started
    /// once the line is out. A step that has already ended stays as it is:
    /// nothing is started after a failure.
    pub fn and_then_spawn(self, program: String) -> (next: Step)
        ensures
            next@ == match self@ {
                StepView::Write { path, line, then } => StepView::Write {
                    path,
                    line,
                    then: Some(program@),
                },
                other => other,
            },
    {
        match self {
            Step::Write { path, line, then } => Step::Write { path, line, then: Some(program) },
            other => other,
        }
    }
}

/// A line that could not be appended never leads to the start of a program:
/// the command ends at once with the channel's failure code.
pub proof fn lemma_no_spawn_after_failed_write(step: StepView)
    requires
        step is Write,
    ensures
        advanced(step, false) == StepView::Done(CHANNEL_UNAVAILABLE),
{
}

} // verus!
