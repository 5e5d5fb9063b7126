//! The backlight commands: what to run to make the screen brighter or darker.

use vstd::prelude::*;
use crate::step::{Step, StepView};

verus! {

/// Asks for `xbacklight` to be run with a direction and an amount.
fn xbacklight(dir: &str, amount: &str) -> (step: Step)
    ensures
        step@ == (StepView::Run { program: "xbacklight"@, args: seq![dir@, amount@] }),
{
    let mut args: Vec<String> = Vec::new();
    args.push(String::from_str(dir));
    args.push(String::from_str(amount));
    assert(args.deep_view() =~= seq![dir@, amount@]);
    Step::Run { program: String::from_str("xbacklight"), args }
}

/// Asks for the backlight to be made brighter by `amount`.
pub fn inc_bright(amount: &str) -> (step: Step)
    ensures
        step@ == (StepView::Run { program: "xbacklight"@, args: seq!["-inc"@, amount@] }),
{
    xbacklight("-inc", amount)
}

/// Asks for the backlight to be made darker by `amount`.
pub fn dec_bright(amount: &str) -> (step: Step)
    ensures
        step@ == (StepView::Run { program: "xbacklight"@, args: seq!["-dec"@, amount@] }),
{
    xbacklight("-dec", amount)
}

} // verus!
