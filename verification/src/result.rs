//! The run aggregate: pass/fail counters and the ordered failure messages.

use vstd::prelude::*;

verus! {

/// Mathematical content of the aggregate: how many vectors passed, how many
/// failed, and the failure messages in the order they were recorded.
pub ghost struct RunTotals {
    pub passed: nat,
    pub failed: nat,
    pub messages: Seq<Seq<char>>,
}

/// The single mutable aggregate threaded through every suite invocation.
/// It only ever grows: counters are incremented, messages are appended.
pub struct TestResult {
    passed: u32,
    failed: u32,
    errors: Vec<String>,
}

impl View for TestResult {
    type V = RunTotals;

    closed spec fn view(&self) -> RunTotals {
        RunTotals {
            passed: self.passed as nat,
            failed: self.failed as nat,
            messages: self.errors@.map_values(|s: String| s@),
        }
    }
}

impl TestResult {
    /// A fresh aggregate: nothing counted, nothing reported.
    pub fn new() -> (r: Self)
        ensures
            r@ == (RunTotals { passed: 0, failed: 0, messages: Seq::<Seq<char>>::empty() }),
    {
        let r = Self { passed: 0, failed: 0, errors: Vec::new() };
        proof {
            assert(r@.messages =~= Seq::<Seq<char>>::empty());
        }
        r
    }

    /// One more vector agreed with its expected outcome.
    pub fn record_pass(&mut self)
        requires
            old(self)@.passed < u32::MAX,
        ensures
            final(self)@ == (RunTotals { passed: old(self)@.passed + 1, ..old(self)@ }),
    {
        self.passed = self.passed + 1;
    }

    /// One more vector disagreed with its expected outcome; keep its message.
    pub fn record_fail(&mut self, msg: String)
        requires
            old(self)@.failed < u32::MAX,
        ensures
            final(self)@ == (RunTotals {
                failed: old(self)@.failed + 1,
                messages: old(self)@.messages.push(msg@),
                ..old(self)@
            }),
    {
        let ghost prior = self.errors@;
        self.failed = self.failed + 1;
        self.errors.push(msg);
        proof {
            assert(self.errors@.map_values(|s: String| s@) =~= prior.map_values(
                |s: String| s@,
            ).push(msg@));
        }
    }

    /// How many vectors matched their expected outcome so far.
    pub fn passed(&self) -> (n: u32)
        ensures
            n == self@.passed,
    {
        self.passed
    }

    /// How many vectors contradicted their expected outcome so far.
    pub fn failed(&self) -> (n: u32)
        ensures
            n == self@.failed,
    {
        self.failed
    }

    /// The recorded failure messages, oldest first.
    pub fn messages(&self) -> (r: &Vec<String>)
        ensures
            r@.map_values(|s: String| s@) == self@.messages,
    {
        &self.errors
    }
}

} // verus!
