use vstd::prelude::*;
use crate::error::MolluskHelperError;

verus! {

/// The engine's three-way classification of one instruction's execution:
/// success, a typed program-reported failure, or an unclassified engine error.
pub enum ProgramOutcome {
    Success,
    Failure(solana_program_error::ProgramError),
    UnknownError(solana_instruction::error::InstructionError),
}

impl ProgramOutcome {
    pub fn is_ok(&self) -> (r: bool)
        ensures
            r == (self is Success),
    {
        match self {
            ProgramOutcome::Success => true,
            ProgramOutcome::Failure(_) => false,
            ProgramOutcome::UnknownError(_) => false,
        }
    }

    pub fn is_err(&self) -> (r: bool)
        ensures
            r == !(self is Success),
    {
        !self.is_ok()
    }
}

/// The outcome of running one instruction: classification, metrics, and the
/// raw failure detail, present exactly when the instruction did not succeed.
pub struct InstructionOutcome {
    pub program_result: ProgramOutcome,
    pub compute_units_consumed: u64,
    pub execution_time: u64,
    pub raw_error: Option<solana_instruction::error::InstructionError>,
}

/// A failure detail accompanies an outcome exactly when it is not a success.
pub open spec fn outcome_consistent(o: InstructionOutcome) -> bool {
    (o.raw_error is Some) <==> !(o.program_result is Success)
}

/// Every outcome in the sequence is a success.
pub open spec fn all_success(s: Seq<InstructionOutcome>) -> bool {
    forall|i: int| 0 <= i < s.len() ==> s[i].program_result is Success
}

/// The mathematical sum of the compute-cost metric over a sequence of outcomes.
pub open spec fn sum_cu(s: Seq<InstructionOutcome>) -> int
    decreases s.len(),
{
    if s.len() == 0 {
        0
    } else {
        sum_cu(s.drop_last()) + s.last().compute_units_consumed
    }
}

/// The mathematical sum of the execution-time metric over a sequence of outcomes.
pub open spec fn sum_et(s: Seq<InstructionOutcome>) -> int
    decreases s.len(),
{
    if s.len() == 0 {
        0
    } else {
        sum_et(s.drop_last()) + s.last().execution_time
    }
}


pub proof fn lemma_sum_push(s: Seq<InstructionOutcome>, o: InstructionOutcome)
    ensures
        sum_cu(s.push(o)) == sum_cu(s) + o.compute_units_consumed,
        sum_et(s.push(o)) == sum_et(s) + o.execution_time,
{
    assert(s.push(o).drop_last() =~= s);
    assert(s.push(o).last() == o);
}

pub proof fn lemma_sums_nonneg(s: Seq<InstructionOutcome>)
    ensures
        sum_cu(s) >= 0,
        sum_et(s) >= 0,
    decreases s.len(),
{
    if s.len() > 0 {
        lemma_sums_nonneg(s.drop_last());
    }
}

/// A non-negative sum clamped into the 64-bit range.
pub open spec fn sat64(n: int) -> u64 {
    if n > u64::MAX {
        u64::MAX
    } else if n < 0 {
        0u64
    } else {
        n as u64
    }
}

/// Addition that clamps at the 64-bit maximum instead of overflowing.
pub fn sat_add(a: u64, b: u64) -> (r: u64)
    ensures
        r == sat64(a + b),
{
    if a > u64::MAX - b {
        u64::MAX
    } else {
        a + b
    }
}

/// The aggregated outcome of a transaction: one entry per instruction
/// attempted, plus the summed metrics over those entries.
pub struct TransactionResult {
    pub instruction_results: Vec<InstructionOutcome>,
    pub total_compute_units: u64,
    pub total_execution_time: u64,
}

/// The totals are the clamped sums of the per-instruction metrics.
pub open spec fn totals_consistent(t: TransactionResult) -> bool {
    t.total_compute_units == sat64(sum_cu(t.instruction_results@))
        && t.total_execution_time == sat64(sum_et(t.instruction_results@))
}

impl TransactionResult {
    /// An empty result: no entries, zero metrics.
    pub fn empty() -> (r: TransactionResult)
        ensures
            r.instruction_results@.len() == 0,
            r.total_compute_units == 0,
            r.total_execution_time == 0,
    {
        TransactionResult {
            instruction_results: Vec::new(),
            total_compute_units: 0,
            total_execution_time: 0,
        }
    }

    /// Overall success: every instruction's own outcome is a success.
    pub fn is_success(&self) -> (r: bool)
        ensures
            r == all_success(self.instruction_results@),
    {
        let n: usize = self.instruction_results.len();
        let mut i: usize = 0;
        while i < n
            invariant
                i <= n,
                n == self.instruction_results@.len(),
                forall|j: int|
                    0 <= j < i ==> self.instruction_results@[j].program_result is Success,
            decreases n - i,
        {
            if self.instruction_results[i].program_result.is_err() {
                return false;
            }
            i += 1;
        }
        true
    }

    /// The position of the first non-success entry, or `None` when all
    /// entries succeeded.
    pub fn failed_at(&self) -> (r: Option<usize>)
        ensures
            match r {
                Some(k) => k < self.instruction_results@.len()
                    && !(self.instruction_results@[k as int].program_result is Success)
                    && forall|j: int|
                    0 <= j < k ==> self.instruction_results@[j].program_result is Success,
                None => all_success(self.instruction_results@),
            },
    {
        let n: usize = self.instruction_results.len();
        let mut i: usize = 0;
        while i < n
            invariant
                i <= n,
                n == self.instruction_results@.len(),
                forall|j: int|
                    0 <= j < i ==> self.instruction_results@[j].program_result is Success,
            decreases n - i,
        {
            if self.instruction_results[i].program_result.is_err() {
                return Some(i);
            }
            i += 1;
        }
        None
    }

    /// The last entry, or `None` when the result is empty.
    pub fn last_result(&self) -> (r: Option<&InstructionOutcome>)
        ensures
            match r {
                Some(o) => self.instruction_results@.len() > 0 && *o
                    == self.instruction_results@.last(),
                None => self.instruction_results@.len() == 0,
            },
    {
        let n: usize = self.instruction_results.len();
        if n == 0 {
            None
        } else {
            Some(&self.instruction_results[n - 1])
        }
    }
}

/// Maps an outcome to the caller-facing result: the outcome itself on
/// success, and the corresponding typed error otherwise.
pub fn require_success(outcome: InstructionOutcome) -> (r: Result<
    InstructionOutcome,
    MolluskHelperError,
>)
    ensures
        outcome.program_result is Success ==> r == Ok::<InstructionOutcome, MolluskHelperError>(
            outcome,
        ),
        outcome.program_result matches ProgramOutcome::Failure(e) ==> r
            == Err::<InstructionOutcome, MolluskHelperError>(MolluskHelperError::ProgramError(e)),
        outcome.program_result matches ProgramOutcome::UnknownError(e) ==> r == Err::<
            InstructionOutcome,
            MolluskHelperError,
        >(MolluskHelperError::InstructionFailed(e)),
{
    match outcome.program_result {
        ProgramOutcome::Success => Ok(outcome),
        ProgramOutcome::Failure(e) => Err(MolluskHelperError::ProgramError(e)),
        ProgramOutcome::UnknownError(e) => Err(MolluskHelperError::InstructionFailed(e)),
    }
}

} // verus!
