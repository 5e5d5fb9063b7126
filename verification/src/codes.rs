//! Result codes, and the search for the first failure among them.

use vstd::prelude::*;

verus! {

/// The operation succeeded.
pub const SUCCESS: u8 = 0;

/// An argument that should be a number is none.
pub const PARSE_ERROR: u8 = 2;

/// A program could not be started, or a unit of work did not run to its end.
pub const EXECUTION_FAILURE: u8 = 4;

/// The window manager's command channel was not found or could not be written.
pub const CHANNEL_UNAVAILABLE: u8 = 5;

/// A command came with too few arguments.
pub const ARGUMENT_COUNT: u8 = 7;

/// The first code of `codes` that reports a failure, if there is one.
pub open spec fn first_failure(codes: Seq<u8>) -> Option<u8>
    decreases codes.len(),
{
    if codes.len() == 0 {
        None
    } else if codes[0] != SUCCESS {
        Some(codes[0])
    } else {
        first_failure(codes.drop_first())
    }
}

/// `first_failure` finds a failure exactly where one occurs, and then the
/// earliest: every code before it is a success.
pub proof fn lemma_first_failure(codes: Seq<u8>)
    ensures
        first_failure(codes) is None <==> forall|i: int|
            0 <= i < codes.len() ==> codes[i] == SUCCESS,
        first_failure(codes) matches Some(code) ==> code != SUCCESS && exists|i: int|
            0 <= i < codes.len() && codes[i] == code && forall|j: int|
                0 <= j < i ==> codes[j] == SUCCESS,
    decreases codes.len(),
{
    if codes.len() > 0 {
        let rest = codes.drop_first();
        lemma_first_failure(rest);
        if codes[0] == SUCCESS {
            assert forall|i: int| 0 <= i < rest.len() implies rest[i] == codes[i + 1] by {}
            if first_failure(rest) is None {
                assert forall|i: int| 0 <= i < codes.len() implies codes[i] == SUCCESS by {
                    if i > 0 {
                        assert(rest[i - 1] == SUCCESS);
                    }
                }
            } else {
                let code = first_failure(rest)->0;
                let k = choose|i: int|
                    0 <= i < rest.len() && rest[i] == code && forall|j: int|
                        0 <= j < i ==> rest[j] == SUCCESS;
                assert forall|j: int| 0 <= j < k + 1 implies codes[j] == SUCCESS by {
                    if j > 0 {
                        assert(rest[j - 1] == SUCCESS);
                    }
                }
            }
        }
    }
}

/// In two runs of codes laid end to end, a failure of the first run hides
/// the second run; where the first run is clean, the second run decides.
pub proof fn lemma_first_failure_concat(front: Seq<u8>, back: Seq<u8>)
    ensures
        first_failure(front + back) == if first_failure(front) is Some {
            first_failure(front)
        } else {
            first_failure(back)
        },
    decreases front.len(),
{
    if front.len() > 0 {
        assert((front + back).drop_first() =~= front.drop_first() + back);
        lemma_first_failure_concat(front.drop_first(), back);
    }
}

/// Scans `codes` in order for the first one that reports a failure.
pub fn find_failure(codes: &Vec<u8>) -> (found: Option<u8>)
    ensures
        found == first_failure(codes@),
{
    let mut i: usize = 0;
    assert(codes@.skip(0) =~= codes@);
    while i < codes.len()
        invariant
            i <= codes.len(),
            first_failure(codes@) == first_failure(codes@.skip(i as int)),
        decreases codes.len() - i,
    {
        if codes[i] != SUCCESS {
            return Some(codes[i]);
        }
        assert(codes@.skip(i as int).drop_first() =~= codes@.skip(i + 1));
        i = i + 1;
    }
    None
}

} // verus!
