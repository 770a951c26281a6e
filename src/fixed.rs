use vstd::prelude::*;

use crate::text::{decimal, decimal_spec};

verus! {

/// The label of run `i`: `run <i>`.
pub open spec fn run_label(i: nat) -> Seq<char> {
    "run "@ + decimal_spec(i)
}

/// The header of the fixed-benchmark table: `runs`, then every name in order.
pub open spec fn fixed_header_spec(names: Seq<Seq<char>>) -> Seq<Seq<char>> {
    seq!["runs"@] + names
}

/// What the run loop does next.
#[derive(PartialEq, Eq, Structural, Clone, Copy, Debug)]
pub enum Step {
    /// Invoke the tool on the case of this index and record its time.
    Invoke(usize),
    /// Every case of the current run has a time: emit the run's row.
    EmitRow,
    /// All runs are done.
    Finished,
}

/// The decisions of a fixed-benchmark run: `repeat` runs, each timing every
/// named case in the order of `names` and then emitting one row.
pub struct FixedHarness {
    names: Vec<String>,
    repeat: usize,
    run: usize,
    timings: Vec<String>,
}

impl FixedHarness {
    pub closed spec fn names(&self) -> Seq<Seq<char>> {
        self.names.deep_view()
    }

    pub closed spec fn repeat(&self) -> nat {
        self.repeat as nat
    }

    /// Index of the current run.
    pub closed spec fn run(&self) -> nat {
        self.run as nat
    }

    /// Times recorded so far in the current run, one per case, in order.
    pub closed spec fn timings(&self) -> Seq<Seq<char>> {
        self.timings.deep_view()
    }

    pub open spec fn wf(&self) -> bool {
        &&& self.run() <= self.repeat()
        &&& self.timings().len() <= self.names().len()
        &&& self.run() == self.repeat() ==> self.timings().len() == 0
    }

    /// The step that the state calls for.
    pub open spec fn step_spec(&self) -> Step {
        if self.run() >= self.repeat() {
            Step::Finished
        } else if self.timings().len() < self.names().len() {
            Step::Invoke(self.timings().len() as usize)
        } else {
            Step::EmitRow
        }
    }

    /// A harness at the start of the first run.
    pub fn new(names: Vec<String>, repeat: usize) -> (r: FixedHarness)
        ensures
            r.wf(),
            r.names() == names.deep_view(),
            r.repeat() == repeat,
            r.run() == 0,
            r.timings().len() == 0,
    {
        let r = FixedHarness { names, repeat, run: 0, timings: Vec::new() };
        assert(r.timings() =~= Seq::<Seq<char>>::empty());
        r
    }

    /// The table header: `runs`, then the case names in order.
    pub fn header(&self) -> (r: Vec<String>)
        ensures
            r.deep_view() == fixed_header_spec(self.names()),
    {
        let mut r: Vec<String> = Vec::new();
        r.push(String::from_str("runs"));
        let mut i: usize = 0;
        while i < self.names.len()
            invariant
                i <= self.names@.len(),
                r.deep_view() == fixed_header_spec(self.names().take(i as int)),
            decreases self.names@.len() - i,
        {
            let ghost prev = r.deep_view();
            r.push(self.names[i].clone());
            assert(r.deep_view() =~= prev.push(self.names()[i as int]));
            assert(self.names().take(i + 1) =~= self.names().take(i as int).push(
                self.names()[i as int],
            ));
            i = i + 1;
            assert(r.deep_view() =~= fixed_header_spec(self.names().take(i as int)));
        }
        assert(self.names().take(i as int) =~= self.names());
        r
    }

    pub fn next_step(&self) -> (s: Step)
        ensures
            s == self.step_spec(),
    {
        if self.run >= self.repeat {
            Step::Finished
        } else if self.timings.len() < self.names.len() {
            Step::Invoke(self.timings.len())
        } else {
            Step::EmitRow
        }
    }

    /// Records the time of the case that was last invoked.
    pub fn record(&mut self, elapsed: String)
        requires
            old(self).wf(),
            old(self).step_spec() is Invoke,
        ensures
            final(self).wf(),
            final(self).names() == old(self).names(),
            final(self).repeat() == old(self).repeat(),
            final(self).run() == old(self).run(),
            final(self).timings() == old(self).timings().push(elapsed@),
    {
        self.timings.push(elapsed);
        assert(self.timings() =~= old(self).timings().push(elapsed@));
    }

    /// Ends the current run: returns its row, `run <i>` followed by the
    /// recorded times, and moves to the next run.
    pub fn emit_row(&mut self) -> (row: Vec<String>)
        requires
            old(self).wf(),
            old(self).step_spec() == Step::EmitRow,
        ensures
            final(self).wf(),
            row.deep_view() == seq![run_label(old(self).run())] + old(self).timings(),
            row.deep_view().len() == old(self).names().len() + 1,
            final(self).names() == old(self).names(),
            final(self).repeat() == old(self).repeat(),
            final(self).run() == old(self).run() + 1,
            final(self).timings().len() == 0,
    {
        let label = String::from_str("run ").concat(decimal(self.run).as_str());
        let mut row: Vec<String> = Vec::new();
        row.push(label);
        let mut i: usize = 0;
        while i < self.timings.len()
            invariant
                i <= self.timings@.len(),
                self.timings() == old(self).timings(),
                row.deep_view() == seq![run_label(self.run())] + self.timings().take(i as int),
            decreases self.timings@.len() - i,
        {
            let ghost prev = row.deep_view();
            row.push(self.timings[i].clone());
            assert(row.deep_view() =~= prev.push(self.timings()[i as int]));
            assert(self.timings().take(i + 1) =~= self.timings().take(i as int).push(
                self.timings()[i as int],
            ));
            i = i + 1;
            assert(row.deep_view() =~= seq![run_label(self.run())] + self.timings().take(
                i as int,
            ));
        }
        assert(self.timings().take(i as int) =~= self.timings());
        self.timings = Vec::new();
        self.run = self.run + 1;
        assert(self.timings() =~= Seq::<Seq<char>>::empty());
        row
    }
}

} // verus!
