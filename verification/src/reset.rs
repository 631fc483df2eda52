//! The sequence that resets a Si470x into 2-wire (I²C) mode, using what the
//! datasheet calls busmode selection method 1.
//!
//! The sequence is a plan of pin and delay steps. A [`ResetSequence`] hands
//! out the next step to perform, is told whether it succeeded, and stops at the
//! first pin operation that fails.

use vstd::prelude::*;

verus! {

/// How long, in milliseconds, RST is held low before it is released.
pub const RESET_HOLD_MS: u32 = 5;

/// How long, in milliseconds, to wait after releasing RST for the chip to settle.
pub const RESET_SETTLE_MS: u32 = 5;

/// One step of the reset sequence.
#[derive(Copy, Clone, Debug, PartialEq, Eq, Structural)]
pub enum ResetStep {
    /// Drive the (active low) reset pin low.
    SetRstLow,
    /// Drive SDA low, selecting 2-wire mode.
    SetSdaLow,
    /// Drive SEN high.
    SetSenHigh,
    /// Wait the given number of milliseconds.
    DelayMs(u32),
    /// Release the reset pin (drive it high).
    SetRstHigh,
}

/// The steps of the reset, in order; SEN is driven only when the board has it.
pub open spec fn reset_plan(with_sen: bool) -> Seq<ResetStep> {
    seq![ResetStep::SetRstLow, ResetStep::SetSdaLow] + (if with_sen {
        seq![ResetStep::SetSenHigh]
    } else {
        Seq::empty()
    }) + seq![
        ResetStep::DelayMs(RESET_HOLD_MS),
        ResetStep::SetRstHigh,
        ResetStep::DelayMs(RESET_SETTLE_MS),
    ]
}

/// The progress of a reset: how many steps of the plan have succeeded, and
/// whether a step has failed.
pub struct ResetSequence {
    with_sen: bool,
    done: usize,
    failed: bool,
}

impl ResetSequence {
    /// The steps that the reset performs.
    pub closed spec fn plan(&self) -> Seq<ResetStep> {
        reset_plan(self.with_sen)
    }

    /// The number of steps performed successfully so far.
    pub closed spec fn done(&self) -> nat {
        self.done as nat
    }

    /// A step has failed.
    pub closed spec fn failed(&self) -> bool {
        self.failed
    }

    /// No step remains to be performed.
    pub open spec fn finished(&self) -> bool {
        self.failed() || self.done() >= self.plan().len()
    }

    /// The result of the reset once it has finished: an error when a pin
    /// operation failed.
    pub open spec fn result(&self) -> Option<Result<(), ()>> {
        if self.failed() {
            Some(Err(()))
        } else if self.done() >= self.plan().len() {
            Some(Ok(()))
        } else {
            None
        }
    }

    /// A reset that has not started; `with_sen` tells whether the SEN pin is driven.
    pub fn new(with_sen: bool) -> (r: Self)
        ensures
            r.plan() == reset_plan(with_sen),
            r.done() == 0,
            !r.failed(),
    {
        ResetSequence { with_sen, done: 0, failed: false }
    }

    /// The next step to perform, or `None` when the reset has finished.
    pub fn next_step(&self) -> (r: Option<ResetStep>)
        ensures
            r == if self.finished() {
                None
            } else {
                Some(self.plan()[self.done() as int])
            },
    {
        let len: usize = if self.with_sen { 6 } else { 5 };
        if self.failed || self.done >= len {
            return None;
        }
        let i = self.done;
        let sen: usize = if self.with_sen { 1 } else { 0 };
        let step = if i == 0 {
            ResetStep::SetRstLow
        } else if i == 1 {
            ResetStep::SetSdaLow
        } else if self.with_sen && i == 2 {
            ResetStep::SetSenHigh
        } else if i == 2 + sen {
            ResetStep::DelayMs(RESET_HOLD_MS)
        } else if i == 3 + sen {
            ResetStep::SetRstHigh
        } else {
            ResetStep::DelayMs(RESET_SETTLE_MS)
        };
        Some(step)
    }

    /// Records the outcome of the step just performed.
    pub fn record(&mut self, succeeded: bool)
        requires
            !old(self).finished(),
        ensures
            final(self).plan() == old(self).plan(),
            succeeded ==> final(self).done() == old(self).done() + 1 && !final(self).failed(),
            !succeeded ==> final(self).done() == old(self).done() && final(self).failed(),
    {
        if succeeded {
            self.done = self.done + 1;
        } else {
            self.failed = true;
        }
    }

    /// The result of the reset, or `None` while steps remain.
    pub fn outcome(&self) -> (r: Option<Result<(), ()>>)
        ensures
            r == self.result(),
    {
        let len: usize = if self.with_sen { 6 } else { 5 };
        if self.failed {
            Some(Err(()))
        } else if self.done >= len {
            Some(Ok(()))
        } else {
            None
        }
    }
}

/// The reset holds RST low from the first step until after a delay of
/// `RESET_HOLD_MS`, only then releases it, waits `RESET_SETTLE_MS`, and drives
/// SEN exactly when the board has a SEN pin.
pub proof fn lemma_reset_plan(with_sen: bool)
    ensures
        reset_plan(with_sen)[0] == ResetStep::SetRstLow,
        reset_plan(with_sen)[1] == ResetStep::SetSdaLow,
        with_sen ==> reset_plan(with_sen)[2] == ResetStep::SetSenHigh,
        RESET_HOLD_MS == 5 && RESET_SETTLE_MS == 5,
        reset_plan(with_sen).len() == if with_sen { 6nat } else { 5nat },
        ({
            let n = reset_plan(with_sen).len() as int;
            &&& reset_plan(with_sen)[n - 3] == ResetStep::DelayMs(RESET_HOLD_MS)
            &&& reset_plan(with_sen)[n - 2] == ResetStep::SetRstHigh
            &&& reset_plan(with_sen)[n - 1] == ResetStep::DelayMs(RESET_SETTLE_MS)
            &&& forall|i: int|
                0 <= i < n - 2 ==> #[trigger] reset_plan(with_sen)[i] != ResetStep::SetRstHigh
        }),
        reset_plan(with_sen).contains(ResetStep::SetSenHigh) == with_sen,
{
    let p = reset_plan(with_sen);
    if with_sen {
        assert(p[2] == ResetStep::SetSenHigh);
    } else {
        assert forall|i: int| 0 <= i < p.len() implies p[i] != ResetStep::SetSenHigh by {}
    }
}

} // verus!
