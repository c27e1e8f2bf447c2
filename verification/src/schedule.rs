//! The retry schedule: a finite, restartable sequence of backoff delays,
//! consumed in declared order and exhausted after the last one.

use vstd::prelude::*;

verus! {

/// A finite sequence of retry delays (milliseconds), consumed in order.
/// `index` points at the next delay to hand out; once it passes the end the
/// schedule is exhausted until it is reset.
#[derive(Debug, Clone, PartialEq)]
pub struct RetrySchedule {
    pub delays: Vec<i64>,
    pub index: usize,
}

/// The delays of the default schedule: eight attempts, backing off from ten
/// seconds to two hours.
pub open spec fn spec_default_delays() -> Seq<i64> {
    seq![
        10_000i64,
        30_000i64,
        60_000i64,
        300_000i64,
        900_000i64,
        1_800_000i64,
        3_600_000i64,
        7_200_000i64,
    ]
}

impl RetrySchedule {
    /// Delays are non-negative and the cursor never passes the end.
    pub open spec fn wf(&self) -> bool {
        &&& forall|i: int| 0 <= i < self.delays@.len() ==> #[trigger] self.delays@[i] >= 0
        &&& self.index <= self.delays@.len()
    }

    /// A schedule over the given delays, starting at the first.
    pub fn new(delays: Vec<i64>) -> (s: Self)
        requires
            forall|i: int| 0 <= i < delays@.len() ==> #[trigger] delays@[i] >= 0,
        ensures
            s.delays == delays,
            s.index == 0,
            s.wf(),
    {
        RetrySchedule { delays, index: 0 }
    }

    /// The default schedule.
    pub fn default_schedule() -> (s: Self)
        ensures
            s.delays@ == spec_default_delays(),
            s.index == 0,
            s.wf(),
    {
        let mut delays: Vec<i64> = Vec::new();
        delays.push(10_000);
        delays.push(30_000);
        delays.push(60_000);
        delays.push(300_000);
        delays.push(900_000);
        delays.push(1_800_000);
        delays.push(3_600_000);
        delays.push(7_200_000);
        proof {
            assert(delays@ =~= spec_default_delays());
        }
        RetrySchedule { delays, index: 0 }
    }

    /// Hands out the next delay of the schedule and advances past it, or
    /// reports exhaustion and stays put.
    pub fn next_delay(&mut self) -> (r: Option<i64>)
        requires
            old(self).wf(),
        ensures
            final(self).wf(),
            final(self).delays == old(self).delays,
            old(self).index < old(self).delays@.len() ==> {
                &&& r == Some(old(self).delays@[old(self).index as int])
                &&& final(self).index == old(self).index + 1
            },
            old(self).index >= old(self).delays@.len() ==> {
                &&& r is None
                &&& final(self).index == old(self).index
            },
    {
        if self.index < self.delays.len() {
            let d = self.delays[self.index];
            self.index = self.index + 1;
            Some(d)
        } else {
            None
        }
    }

    /// Uses up one attempt of the schedule without reading its delay, for
    /// retries whose wait the server dictated. Reports whether an attempt was
    /// left.
    pub fn consume_slot(&mut self) -> (r: bool)
        requires
            old(self).wf(),
        ensures
            final(self).wf(),
            final(self).delays == old(self).delays,
            old(self).index < old(self).delays@.len() ==> {
                &&& r == true
                &&& final(self).index == old(self).index + 1
            },
            old(self).index >= old(self).delays@.len() ==> {
                &&& r == false
                &&& final(self).index == old(self).index
            },
    {
        if self.index < self.delays.len() {
            self.index = self.index + 1;
            true
        } else {
            false
        }
    }

    /// Restarts the schedule at its first delay.
    pub fn reset(&mut self)
        requires
            old(self).wf(),
        ensures
            final(self).wf(),
            final(self).delays == old(self).delays,
            final(self).index == 0,
    {
        self.index = 0;
    }
}

} // verus!
