//! One unit of work while it runs: its launches are made in order, and each
//! result code is kept at the place of its launch.

use vstd::prelude::*;
use crate::layout::{Launch, LaunchView};

verus! {

/// One unit of work while it runs: its launches, and the result codes of
/// those that were made so far. The launches are made in order, one at a
/// time, and each code answers the launch at its own position.
pub struct UnitRun {
    launches: Vec<Launch>,
    codes: Vec<u8>,
}

impl UnitRun {
    #[verifier::type_invariant]
    spec fn well_formed(self) -> bool {
        self.codes.len() <= self.launches.len()
    }

    /// The launches of this unit, in order.
    pub closed spec fn launches(self) -> Seq<LaunchView> {
        self.launches.deep_view()
    }

    /// The result codes gathered so far, in the order of the launches.
    pub closed spec fn codes(self) -> Seq<u8> {
        self.codes@
    }

    /// Whether every launch has been answered.
    pub open spec fn complete(self) -> bool {
        self.codes().len() == self.launches().len()
    }

    /// A unit that has not made any launch yet.
    pub fn new(launches: Vec<Launch>) -> (run: UnitRun)
        ensures
            run.launches() == launches.deep_view(),
            run.codes() == Seq::<u8>::empty(),
    {
        UnitRun { launches, codes: Vec::new() }
    }

    /// The launch to make next: the first one without a code. `None` once
    /// every launch has been answered.
    pub fn next(&self) -> (launch: Option<&Launch>)
        ensures
            match launch {
                Some(l) => !self.complete() && l@ == self.launches()[self.codes().len() as int],
                None => self.complete(),
            },
    {
        proof {
            use_type_invariant(self);
        }
        if self.codes.len() < self.launches.len() {
            Some(&self.launches[self.codes.len()])
        } else {
            None
        }
    }

    /// Takes in the result code of the launch that `next` gave. Once every
    /// launch has been answered, a further code is dropped.
    pub fn record(self, code: u8) -> (run: UnitRun)
        ensures
            run.launches() == self.launches(),
            run.codes() == if self.complete() {
                self.codes()
            } else {
                self.codes().push(code)
            },
    {
        proof {
            use_type_invariant(&self);
        }
        let UnitRun { launches, codes } = self;
        let mut codes = codes;
        if codes.len() < launches.len() {
            codes.push(code);
        }
        UnitRun { launches, codes }
    }

    /// The result codes of the unit: one for each launch that was made, in
    /// the order of the launches.
    pub fn finish(self) -> (codes: Vec<u8>)
        ensures
            codes@ == self.codes(),
            codes@.len() <= self.launches().len(),
    {
        proof {
            use_type_invariant(&self);
        }
        self.codes
    }
}

} // verus!
