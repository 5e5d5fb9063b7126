//! The commands of the window manager, by name.

use std::path::PathBuf;
use vstd::prelude::*;
use crate::channel::{
    close_focused, close_text, focus_on, focus_text, looked_up, move_text, move_to, sent,
};
use crate::layout::DesktopLayout;
use crate::scheduler::{load_from_yaml, plan_of};
use crate::step::{Step, StepView};
use crate::switcher::{open_on_desktop, opened};
use crate::text::same_text;

verus! {

/// The answer to a command: either it is one of this window manager's and
/// was taken up, or it is none of them.
#[derive(Debug, PartialEq, Eq)]
pub enum Dispatch {
    /// The command was taken up, and stands at this step.
    Handled(Step),
    /// The command is none of this window manager's.
    NotHandled,
}

/// A `Dispatch` as plain values.
pub enum DispatchView {
    Handled(StepView),
    NotHandled,
}

impl View for Dispatch {
    type V = DispatchView;

    open spec fn view(&self) -> DispatchView {
        match *self {
            Dispatch::Handled(step) => DispatchView::Handled(step@),
            Dispatch::NotHandled => DispatchView::NotHandled,
        }
    }
}

/// Whether `cmd` names a command of this window manager.
pub open spec fn is_command(cmd: Seq<char>) -> bool {
    cmd == "move-to"@ || cmd == "close-focused"@ || cmd == "open-at"@ || cmd == "open-on"@ || cmd
        == "focus-on"@ || cmd == "load-layout"@
}

/// What the command `cmd` with the argument `args` comes to, given where
/// the command pipe was found.
pub open spec fn dispatched(file: Option<PathBuf>, cmd: Seq<char>, args: Seq<char>) -> DispatchView {
    if cmd == "move-to"@ {
        DispatchView::Handled(sent(file, move_text(args)))
    } else if cmd == "close-focused"@ {
        DispatchView::Handled(sent(file, close_text()))
    } else if cmd == "open-at"@ || cmd == "open-on"@ {
        DispatchView::Handled(opened(file, args))
    } else if cmd == "focus-on"@ {
        DispatchView::Handled(sent(file, focus_text(args)))
    } else if cmd == "load-layout"@ {
        DispatchView::Handled(StepView::Load { layout: args })
    } else {
        DispatchView::NotHandled
    }
}

/// Takes up the command `cmd` with the argument `args` where it is one of
/// this window manager's.
pub fn leftwm_switch(cmd: &str, args: &str) -> (answer: Dispatch)
    ensures
        exists|file: Option<PathBuf>|
            looked_up(file) && answer@ == #[trigger] dispatched(file, cmd@, args@),
        answer is NotHandled <==> !is_command(cmd@),
{
    if same_text(cmd, "move-to") {
        let step = move_to(args);
        proof {
            let file = choose|file: Option<PathBuf>|
                looked_up(file) && step@ == #[trigger] sent(file, move_text(args@));
            assert(DispatchView::Handled(step@) == dispatched(file, cmd@, args@));
        }
        Dispatch::Handled(step)
    } else if same_text(cmd, "close-focused") {
        let step = close_focused();
        proof {
            let file = choose|file: Option<PathBuf>|
                looked_up(file) && step@ == #[trigger] sent(file, close_text());
            assert(DispatchView::Handled(step@) == dispatched(file, cmd@, args@));
        }
        Dispatch::Handled(step)
    } else if same_text(cmd, "open-at") || same_text(cmd, "open-on") {
        let step = open_on_desktop(args);
        proof {
            let file = choose|file: Option<PathBuf>|
                looked_up(file) && step@ == #[trigger] opened(file, args@);
            assert(DispatchView::Handled(step@) == dispatched(file, cmd@, args@));
        }
        Dispatch::Handled(step)
    } else if same_text(cmd, "focus-on") {
        let step = focus_on(args);
        proof {
            let file = choose|file: Option<PathBuf>|
                looked_up(file) && step@ == #[trigger] sent(file, focus_text(args@));
            assert(DispatchView::Handled(step@) == dispatched(file, cmd@, args@));
        }
        Dispatch::Handled(step)
    } else if same_text(cmd, "load-layout") {
        let step = load_layout(args);
        assert(looked_up(None) && DispatchView::Handled(step@) == dispatched(None, cmd@, args@));
        Dispatch::Handled(step)
    } else {
        assert(looked_up(None) && DispatchView::NotHandled == dispatched(None, cmd@, args@));
        Dispatch::NotHandled
    }
}

/// Asks for the layout named `args` to be read.
pub fn load_layout(args: &str) -> (step: Step)
    ensures
        step@ == (StepView::Load { layout: args@ }),
{
    Step::Load { layout: String::from_str(args) }
}

/// Takes in what reading a layout gave: the error code with which it
/// failed ends the command; desktops that were read are laid out as units
/// of work to be run.
pub fn layout_loaded(loaded: Result<Vec<DesktopLayout>, u8>) -> (step: Step)
    ensures
        step@ == match loaded {
            Ok(layouts) => StepView::Execute { units: plan_of(layouts.deep_view()) },
            Err(code) => StepView::Done(code),
        },
{
    match loaded {
        Ok(layouts) => Step::Execute { units: load_from_yaml(layouts) },
        Err(code) => Step::Done(code),
    }
}

} // verus!
