use vstd::prelude::*;

use crate::corpus::GeneratorParameters;
use crate::text::{decimal, decimal_spec};

verus! {

/// Line length range, lower bound, of the corpora the scaling run generates.
pub const SCALING_LINE_LOWER: usize = 5;

/// Line length range, exclusive upper bound, of the corpora the scaling run
/// generates.
pub const SCALING_LINE_UPPER: usize = 30;

/// Probability (one tenth) of each edit in the corpora the scaling run generates.
pub const SCALING_PROB: u32 = 100000;

/// Settings of a scaling run.
pub struct Config {
    /// The external tool.
    pub patcher: String,
    /// Where the result table goes.
    pub result: String,
    pub start_length: usize,
    pub end_length: usize,
    pub amount_of_points: usize,
}

/// Why a scaling configuration is refused.
#[derive(PartialEq, Eq, Structural, Clone, Copy, Debug)]
pub enum ConfigError {
    /// `end_length < start_length`.
    EndBeforeStart,
    /// `amount_of_points == 0`.
    NoPoints,
}

/// The step between two consecutive lengths, by integer division.
pub open spec fn step_spec(start: nat, end: nat, points: nat) -> nat {
    ((end - start) as nat) / points
}

/// The length of point `i`.
pub open spec fn planned_length(start: nat, end: nat, points: nat, i: nat) -> nat {
    start + i * step_spec(start, end, points)
}

impl Config {
    pub open spec fn valid(&self) -> bool {
        self.start_length <= self.end_length && self.amount_of_points > 0
    }

    /// Accepts a configuration whose range is ordered and which asks for at
    /// least one point; an unordered range is reported first.
    pub fn validate(&self) -> (r: Result<(), ConfigError>)
        ensures
            r is Ok <==> self.valid(),
            r == Err::<(), ConfigError>(ConfigError::EndBeforeStart) <==> self.end_length
                < self.start_length,
            r == Err::<(), ConfigError>(ConfigError::NoPoints) <==> (self.start_length
                <= self.end_length && self.amount_of_points == 0),
    {
        if self.end_length < self.start_length {
            Err(ConfigError::EndBeforeStart)
        } else if self.amount_of_points == 0 {
            Err(ConfigError::NoPoints)
        } else {
            Ok(())
        }
    }

    /// The step between two consecutive lengths; the remainder is dropped.
    pub fn step(&self) -> (r: usize)
        requires
            self.valid(),
        ensures
            r == step_spec(
                self.start_length as nat,
                self.end_length as nat,
                self.amount_of_points as nat,
            ),
    {
        (self.end_length - self.start_length) / self.amount_of_points
    }

    /// The lengths of all points, in order: `amount_of_points` of them, the
    /// `i`-th being `start_length + i * step`, never decreasing.
    pub fn lengths(&self) -> (r: Vec<usize>)
        requires
            self.valid(),
        ensures
            r@.len() == self.amount_of_points,
            forall|i: int|
                0 <= i < r@.len() ==> r@[i] == planned_length(
                    self.start_length as nat,
                    self.end_length as nat,
                    self.amount_of_points as nat,
                    i as nat,
                ),
            forall|i: int, j: int| 0 <= i <= j < r@.len() ==> r@[i] <= r@[j],
    {
        let step = self.step();
        let ghost start = self.start_length as nat;
        let ghost points = self.amount_of_points as nat;
        let ghost span = (self.end_length - self.start_length) as nat;
        proof {
            assert(step * points <= span) by (nonlinear_arith)
                requires
                    step == span / points,
                    points > 0,
            ;
        }
        let mut r: Vec<usize> = Vec::new();
        let mut i: usize = 0;
        let mut length: usize = self.start_length;
        while i < self.amount_of_points
            invariant
                self.valid(),
                step == step_spec(start, self.end_length as nat, points),
                start == self.start_length,
                points == self.amount_of_points,
                span == self.end_length - self.start_length,
                step * points <= span,
                i <= points,
                length == start + i * step,
                r@.len() == i,
                forall|k: int|
                    0 <= k < i ==> r@[k] == planned_length(
                        start,
                        self.end_length as nat,
                        points,
                        k as nat,
                    ),
            decreases points - i,
        {
            r.push(length);
            proof {
                assert((i + 1) * step <= points * step) by (nonlinear_arith)
                    requires
                        i < points,
                ;
                assert((i + 1) * step == i * step + step) by (nonlinear_arith);
            }
            length = length + step;
            i = i + 1;
        }
        assert forall|a: int, b: int| 0 <= a <= b < r@.len() implies r@[a] <= r@[b] by {
            assert(a * step <= b * step) by (nonlinear_arith)
                requires
                    0 <= a <= b,
            ;
        }
        r
    }

    /// Parameters of the corpus generated at one point: `length` lines of
    /// length in `[5, 30)`, each edit with probability one tenth.
    pub fn corpus_parameters(length: usize) -> (r: GeneratorParameters)
        ensures
            r.wf(),
            r.length == length,
            r.line_length_lower == SCALING_LINE_LOWER,
            r.line_length_upper == SCALING_LINE_UPPER,
            r.prob_duplicate == SCALING_PROB,
            r.prob_delete == SCALING_PROB,
            r.prob_substitute == SCALING_PROB,
    {
        GeneratorParameters {
            length,
            line_length_lower: SCALING_LINE_LOWER,
            line_length_upper: SCALING_LINE_UPPER,
            prob_duplicate: SCALING_PROB,
            prob_delete: SCALING_PROB,
            prob_substitute: SCALING_PROB,
        }
    }
}

/// The header of the scaling table: `Length`, `Time`.
pub fn scaling_header() -> (r: Vec<String>)
    ensures
        r.deep_view() == seq!["Length"@, "Time"@],
{
    let r = vec![String::from_str("Length"), String::from_str("Time")];
    assert(r.deep_view() =~= seq!["Length"@, "Time"@]);
    r
}

/// One row of the scaling table: the length in decimal and the elapsed time
/// as given.
pub fn scaling_row(length: usize, elapsed: String) -> (r: Vec<String>)
    ensures
        r.deep_view() == seq![decimal_spec(length as nat), elapsed@],
{
    let r = vec![decimal(length), elapsed];
    assert(r.deep_view() =~= seq![decimal_spec(length as nat), elapsed@]);
    r
}

} // verus!
