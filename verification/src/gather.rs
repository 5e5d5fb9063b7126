//! Gathering the results of the units of a run into one result code.

use vstd::prelude::*;
use crate::codes::{
    find_failure, first_failure, lemma_first_failure_concat, EXECUTION_FAILURE, SUCCESS,
};

verus! {

/// What the scheduler does next while it gathers the results of its units.
#[derive(Clone, Copy, Debug, PartialEq, Eq, Structural)]
pub enum Await {
    /// Wait for the unit with this index to end.
    Unit(usize),
    /// Stop waiting: this is the result of the whole run.
    Finished(u8),
}

/// The result codes that a unit counts for: its own where it ran to its
/// end, a single failure where it did not.
pub open spec fn unit_codes(outcome: Option<Seq<u8>>) -> Seq<u8> {
    match outcome {
        Some(codes) => codes,
        None => seq![EXECUTION_FAILURE],
    }
}

/// The result codes of all units one after another, in the order in which
/// the units were started.
pub open spec fn all_codes(outcomes: Seq<Option<Seq<u8>>>) -> Seq<u8> {
    outcomes.map_values(|o: Option<Seq<u8>>| unit_codes(o)).flatten()
}

/// The result of a whole run: the first failure among the codes of all
/// units in starting order, success where there is none.
pub open spec fn overall(outcomes: Seq<Option<Seq<u8>>>) -> u8 {
    match first_failure(all_codes(outcomes)) {
        Some(code) => code,
        None => SUCCESS,
    }
}

/// What follows when unit `index` of `units` has ended with `outcome`: its
/// first failure ends the run, else the next unit is awaited, and after
/// the last unit the run has succeeded.
pub open spec fn after_unit(index: usize, units: usize, outcome: Option<Seq<u8>>) -> Await {
    match first_failure(unit_codes(outcome)) {
        Some(code) => Await::Finished(code),
        None => if index + 1 < units {
            Await::Unit((index + 1) as usize)
        } else {
            Await::Finished(SUCCESS)
        },
    }
}

/// The result of awaiting the units from `index` on, one at a time.
pub open spec fn gathered(outcomes: Seq<Option<Seq<u8>>>, index: int) -> u8
    decreases outcomes.len() - index,
{
    if 0 <= index < outcomes.len() <= usize::MAX {
        match after_unit(index as usize, outcomes.len() as usize, outcomes[index]) {
            Await::Finished(code) => code,
            Await::Unit(next) => gathered(outcomes, next as int),
        }
    } else {
        SUCCESS
    }
}

/// The first step of gathering `units` results: await the first unit, or
/// succeed at once where there is none.
pub fn begin(units: usize) -> (first: Await)
    ensures
        first == if units > 0 {
            Await::Unit(0)
        } else {
            Await::Finished(SUCCESS)
        },
{
    if units > 0 {
        Await::Unit(0)
    } else {
        Await::Finished(SUCCESS)
    }
}

/// Takes in the end of unit `index` of `units`: `outcome` holds its result
/// codes, or nothing where the unit did not run to its end. Says whether
/// to stop with a result or which unit to await next.
pub fn unit_done(index: usize, units: usize, outcome: &Option<Vec<u8>>) -> (next: Await)
    ensures
        next == after_unit(index, units, outcome.deep_view()),
{
    let failure = match outcome {
        Some(codes) => {
            assert(codes.deep_view() =~= codes@);
            find_failure(codes)
        },
        None => {
            Some(EXECUTION_FAILURE)
        },
    };
    match failure {
        Some(code) => Await::Finished(code),
        None => if index < units && index + 1 < units {
            Await::Unit(index + 1)
        } else {
            Await::Finished(SUCCESS)
        },
    }
}

/// The result of a run whose units have all ended: awaits them one at a
/// time in starting order and stops at the first failure.
pub fn aggregate(outcomes: &Vec<Option<Vec<u8>>>) -> (code: u8)
    ensures
        code == overall(outcomes.deep_view()),
{
    let units = outcomes.len();
    let mut state = begin(units);
    let ghost all = outcomes.deep_view();
    proof {
        lemma_gathered_is_overall(all);
    }
    loop
        invariant
            units == outcomes.len(),
            all == outcomes.deep_view(),
            match state {
                Await::Unit(index) => index < units && gathered(all, index as int) == overall(all),
                Await::Finished(code) => code == overall(all),
            },
        decreases
            match state {
                Await::Unit(index) => units - index,
                Await::Finished(_) => 0,
            },
            match state {
                Await::Unit(_) => 1int,
                Await::Finished(_) => 0int,
            },
    {
        match state {
            Await::Finished(code) => {
                return code;
            },
            Await::Unit(index) => {
                state = unit_done(index, units, &outcomes[index]);
            },
        }
    }
}

/// Awaiting the units one at a time and stopping at the first failure
/// gives the first failure among all codes in starting order.
pub proof fn lemma_gathered_is_overall(outcomes: Seq<Option<Seq<u8>>>)
    requires
        outcomes.len() <= usize::MAX,
    ensures
        gathered(outcomes, 0) == overall(outcomes),
{
    lemma_gathered_from(outcomes, 0);
    assert(outcomes.skip(0) =~= outcomes);
}

/// Awaiting from unit `index` on gives the first failure among the codes
/// of the units from `index` on.
pub proof fn lemma_gathered_from(outcomes: Seq<Option<Seq<u8>>>, index: int)
    requires
        0 <= index <= outcomes.len() <= usize::MAX,
    ensures
        gathered(outcomes, index) == overall(outcomes.skip(index)),
    decreases outcomes.len() - index,
{
    if index < outcomes.len() {
        let each = outcomes.skip(index).map_values(|o: Option<Seq<u8>>| unit_codes(o));
        let later_each = outcomes.skip(index + 1).map_values(|o: Option<Seq<u8>>| unit_codes(o));
        assert(each.drop_first() =~= later_each);
        lemma_first_failure_concat(unit_codes(outcomes[index]), later_each.flatten());
        lemma_gathered_from(outcomes, index + 1);
    }
}

/// The first unit with a failure decides the run, whatever the units after
/// it hold: where every unit before unit `k` is clean and unit `k` is not,
/// the result is the first failure of unit `k`.
pub proof fn lemma_first_failing_unit_decides(outcomes: Seq<Option<Seq<u8>>>, k: int)
    requires
        0 <= k < outcomes.len(),
        forall|i: int| 0 <= i < k ==> first_failure(unit_codes(#[trigger] outcomes[i])) is None,
        first_failure(unit_codes(outcomes[k])) is Some,
    ensures
        Some(overall(outcomes)) == first_failure(unit_codes(outcomes[k])),
    decreases k,
{
    let each = outcomes.map_values(|o: Option<Seq<u8>>| unit_codes(o));
    let later = outcomes.drop_first();
    let later_each = later.map_values(|o: Option<Seq<u8>>| unit_codes(o));
    assert(each.drop_first() =~= later_each);
    lemma_first_failure_concat(unit_codes(outcomes[0]), later_each.flatten());
    if k > 0 {
        assert forall|i: int| 0 <= i < k - 1 implies first_failure(
            unit_codes(#[trigger] later[i]),
        ) is None by {
            assert(later[i] == outcomes[i + 1]);
        }
        lemma_first_failing_unit_decides(later, k - 1);
    }
}

/// A run whose units are all clean succeeds.
pub proof fn lemma_clean_run_succeeds(outcomes: Seq<Option<Seq<u8>>>)
    requires
        forall|i: int|
            0 <= i < outcomes.len() ==> first_failure(unit_codes(#[trigger] outcomes[i])) is None,
    ensures
        overall(outcomes) == SUCCESS,
    decreases outcomes.len(),
{
    if outcomes.len() > 0 {
        let each = outcomes.map_values(|o: Option<Seq<u8>>| unit_codes(o));
        let later = outcomes.drop_first();
        let later_each = later.map_values(|o: Option<Seq<u8>>| unit_codes(o));
        assert(each.drop_first() =~= later_each);
        lemma_first_failure_concat(unit_codes(outcomes[0]), later_each.flatten());
        assert forall|i: int| 0 <= i < later.len() implies first_failure(
            unit_codes(#[trigger] later[i]),
        ) is None by {
            assert(later[i] == outcomes[i + 1]);
        }
        lemma_clean_run_succeeds(later);
    }
}

} // verus!
