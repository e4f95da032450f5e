use vstd::prelude::*;
use crate::context::MolluskContextHelper;
use crate::error::MolluskHelperError;
use crate::outcome::{
    all_success, lemma_sum_push, lemma_sums_nonneg, sat64, sat_add, sum_cu, sum_et,
    totals_consistent, InstructionOutcome, TransactionResult,
};

verus! {

/// An ordered batch of instructions, executed against a context under one
/// of three policies: strict atomicity, failure tolerance, or dry run.
pub struct TransactionBuilder {
    pub instructions: Vec<solana_instruction::Instruction>,
}

impl MolluskContextHelper {
    /// An empty batch to fill and execute against this context.
    pub fn transaction(&self) -> (r: TransactionBuilder)
        ensures
            r.instructions@.len() == 0,
    {
        TransactionBuilder::new()
    }
}

impl TransactionBuilder {
    pub fn new() -> (r: TransactionBuilder)
        ensures
            r.instructions@.len() == 0,
    {
        TransactionBuilder { instructions: Vec::new() }
    }

    /// Appends one instruction to the batch.
    pub fn add_instruction(self, instruction: solana_instruction::Instruction) -> (r:
        TransactionBuilder)
        ensures
            r.instructions@ == self.instructions@.push(instruction),
    {
        let mut this = self;
        this.instructions.push(instruction);
        this
    }

    /// Appends a list of instructions to the batch, in order.
    pub fn add_instructions(self, instructions: Vec<solana_instruction::Instruction>) -> (r:
        TransactionBuilder)
        ensures
            r.instructions@ == self.instructions@ + instructions@,
    {
        let mut this = self;
        let mut rest = instructions;
        this.instructions.append(&mut rest);
        this
    }

    /// Strict mode: instructions run in order; the first failure restores
    /// the pre-transaction snapshot, reports the failing position with its
    /// detail, and runs nothing further. On success every mutation stays
    /// and every reported outcome is a success.
    pub fn execute(self, context: &mut MolluskContextHelper) -> (r: Result<
        TransactionResult,
        MolluskHelperError,
    >)
        requires
            old(context).inv(),
        ensures
            final(context).inv(),
            self.instructions@.len() == 0 ==> *final(context) == *old(context) && (r matches Ok(tr)
                && tr.instruction_results@.len() == 0 && tr.total_compute_units == 0
                && tr.total_execution_time == 0),
            match r {
                Ok(tr) => {
                    &&& tr.instruction_results@.len() == self.instructions@.len()
                    &&& all_success(tr.instruction_results@)
                    &&& totals_consistent(tr)
                },
                Err(e) => {
                    &&& final(context).accounts() == old(context).accounts()
                    &&& self.instructions@.len() > 0
                    &&& e matches MolluskHelperError::TransactionFailed { index, error: _ }
                        && index < self.instructions@.len()
                },
            },
            forall|k: Seq<u8>|
                #[trigger] old(context).accounts().contains_key(k) ==> final(context).accounts().contains_key(k),
            final(context).unix_timestamp() == old(context).unix_timestamp(),
            forall|k: Seq<u8>|
                #[trigger] final(context).has_program(k) == old(context).has_program(k),
            forall|n: Seq<char>|
                #[trigger] final(context).has_keypair(n) == old(context).has_keypair(n),
    {
        let n: usize = self.instructions.len();
        if n == 0 {
            return Ok(TransactionResult::empty());
        }
        let snapshot = context.snapshot_accounts();
        let ghost pre = context.accounts();
        let mut results: Vec<InstructionOutcome> = Vec::new();
        let mut total_cu: u64 = 0;
        let mut total_et: u64 = 0;
        let mut index: usize = 0;
        while index < n
            invariant
                n == self.instructions@.len(),
                index <= n,
                context.inv(),
                snapshot.wf(),
                snapshot@ == pre,
                pre == old(context).accounts(),
                forall|k: Seq<u8>|
                    #[trigger] old(context).accounts().contains_key(k) ==> context.accounts().contains_key(k),
                context.unix_timestamp() == old(context).unix_timestamp(),
                forall|k: Seq<u8>|
                    #[trigger] context.has_program(k) == old(context).has_program(k),
                forall|n: Seq<char>|
                    #[trigger] context.has_keypair(n) == old(context).has_keypair(n),
                results@.len() == index,
                all_success(results@),
                total_cu == sat64(sum_cu(results@)),
                total_et == sat64(sum_et(results@)),
            decreases n - index,
        {
            let outcome = context.process_instruction_unchecked(&self.instructions[index]);
            let ghost prev = results@;
            total_cu = sat_add(total_cu, outcome.compute_units_consumed);
            total_et = sat_add(total_et, outcome.execution_time);
            if outcome.program_result.is_err() {
                context.restore_accounts(snapshot);
                let error = outcome.raw_error.unwrap();
                return Err(MolluskHelperError::TransactionFailed { index, error });
            }
            results.push(outcome);
            proof {
                lemma_sums_nonneg(prev);
                lemma_sum_push(prev, outcome);
            }
            index += 1;
        }
        Ok(TransactionResult {
            instruction_results: results,
            total_compute_units: total_cu,
            total_execution_time: total_et,
        })
    }

    /// Tolerant mode: every instruction runs and reports its own outcome;
    /// if any failed, the pre-transaction snapshot is restored wholesale,
    /// discarding even the successes' effects.
    pub fn execute_allow_failures(self, context: &mut MolluskContextHelper) -> (r:
        TransactionResult)
        requires
            old(context).inv(),
        ensures
            final(context).inv(),
            self.instructions@.len() == 0 ==> *final(context) == *old(context),
            r.instruction_results@.len() == self.instructions@.len(),
            totals_consistent(r),
            !all_success(r.instruction_results@) ==> final(context).accounts() == old(context).accounts(),
            forall|k: Seq<u8>|
                #[trigger] old(context).accounts().contains_key(k) ==> final(context).accounts().contains_key(k),
            final(context).unix_timestamp() == old(context).unix_timestamp(),
            forall|k: Seq<u8>|
                #[trigger] final(context).has_program(k) == old(context).has_program(k),
            forall|n: Seq<char>|
                #[trigger] final(context).has_keypair(n) == old(context).has_keypair(n),
    {
        let n: usize = self.instructions.len();
        if n == 0 {
            return TransactionResult::empty();
        }
        let snapshot = context.snapshot_accounts();
        let ghost pre = context.accounts();
        let mut results: Vec<InstructionOutcome> = Vec::new();
        let mut total_cu: u64 = 0;
        let mut total_et: u64 = 0;
        let mut any_failed: bool = false;
        let mut index: usize = 0;
        while index < n
            invariant
                n == self.instructions@.len(),
                index <= n,
                context.inv(),
                snapshot.wf(),
                snapshot@ == pre,
                pre == old(context).accounts(),
                forall|k: Seq<u8>|
                    #[trigger] old(context).accounts().contains_key(k) ==> context.accounts().contains_key(k),
                context.unix_timestamp() == old(context).unix_timestamp(),
                forall|k: Seq<u8>|
                    #[trigger] context.has_program(k) == old(context).has_program(k),
                forall|n: Seq<char>|
                    #[trigger] context.has_keypair(n) == old(context).has_keypair(n),
                results@.len() == index,
                any_failed == !all_success(results@),
                total_cu == sat64(sum_cu(results@)),
                total_et == sat64(sum_et(results@)),
            decreases n - index,
        {
            let outcome = context.process_instruction_unchecked(&self.instructions[index]);
            let ghost prev = results@;
            let ghost was_failed = any_failed;
            total_cu = sat_add(total_cu, outcome.compute_units_consumed);
            total_et = sat_add(total_et, outcome.execution_time);
            if outcome.program_result.is_err() {
                any_failed = true;
            }
            results.push(outcome);
            proof {
                lemma_sums_nonneg(prev);
                lemma_sum_push(prev, outcome);
                if was_failed {
                    let j = choose|j: int|
                        0 <= j < prev.len() && !((#[trigger] prev[j]).program_result is Success);
                    assert(results@[j] == prev[j]);
                    assert(!all_success(results@));
                } else if !(outcome.program_result is Success) {
                    assert(!(results@[index as int].program_result is Success));
                    assert(!all_success(results@));
                } else {
                    assert forall|j: int| 0 <= j < results@.len() implies (#[trigger] results@[j]).program_result is Success by {
                        if j < prev.len() {
                            assert(results@[j] == prev[j]);
                        }
                    }
                }
            }
            index += 1;
        }
        if any_failed {
            context.restore_accounts(snapshot);
        }
        TransactionResult {
            instruction_results: results,
            total_compute_units: total_cu,
            total_execution_time: total_et,
        }
    }

    /// Dry run: instructions run in order up to and including the first
    /// failure, and the pre-transaction snapshot is always restored, so the
    /// store is never left mutated, even on full success.
    pub fn dry_run(self, context: &mut MolluskContextHelper) -> (r: TransactionResult)
        requires
            old(context).inv(),
        ensures
            final(context).inv(),
            final(context).accounts() == old(context).accounts(),
            self.instructions@.len() == 0 ==> *final(context) == *old(context),
            r.instruction_results@.len() <= self.instructions@.len(),
            self.instructions@.len() > 0 ==> r.instruction_results@.len() >= 1,
            totals_consistent(r),
            forall|j: int|
                0 <= j < r.instruction_results@.len() - 1 ==> (#[trigger] r.instruction_results@[j]).program_result is Success,
            r.instruction_results@.len() < self.instructions@.len() ==> !(r.instruction_results@.last().program_result is Success),
            final(context).unix_timestamp() == old(context).unix_timestamp(),
            forall|k: Seq<u8>|
                #[trigger] final(context).has_program(k) == old(context).has_program(k),
            forall|n: Seq<char>|
                #[trigger] final(context).has_keypair(n) == old(context).has_keypair(n),
    {
        let n: usize = self.instructions.len();
        if n == 0 {
            return TransactionResult::empty();
        }
        let snapshot = context.snapshot_accounts();
        let ghost pre = context.accounts();
        let mut results: Vec<InstructionOutcome> = Vec::new();
        let mut total_cu: u64 = 0;
        let mut total_et: u64 = 0;
        let mut stopped: bool = false;
        let mut index: usize = 0;
        while index < n && !stopped
            invariant
                n == self.instructions@.len(),
                index <= n,
                context.inv(),
                snapshot.wf(),
                snapshot@ == pre,
                pre == old(context).accounts(),
                forall|k: Seq<u8>|
                    #[trigger] old(context).accounts().contains_key(k) ==> context.accounts().contains_key(k),
                context.unix_timestamp() == old(context).unix_timestamp(),
                forall|k: Seq<u8>|
                    #[trigger] context.has_program(k) == old(context).has_program(k),
                forall|n: Seq<char>|
                    #[trigger] context.has_keypair(n) == old(context).has_keypair(n),
                results@.len() == index,
                total_cu == sat64(sum_cu(results@)),
                total_et == sat64(sum_et(results@)),
                forall|j: int|
                    0 <= j < results@.len() - 1 ==> (#[trigger] results@[j]).program_result is Success,
                !stopped ==> all_success(results@),
                stopped ==> index > 0 && !(results@.last().program_result is Success),
            decreases n - index,
        {
            let outcome = context.process_instruction_unchecked(&self.instructions[index]);
            let ghost prev = results@;
            total_cu = sat_add(total_cu, outcome.compute_units_consumed);
            total_et = sat_add(total_et, outcome.execution_time);
            if outcome.program_result.is_err() {
                stopped = true;
            }
            results.push(outcome);
            proof {
                lemma_sums_nonneg(prev);
                lemma_sum_push(prev, outcome);
                assert forall|j: int| 0 <= j < results@.len() - 1 implies (#[trigger] results@[j]).program_result is Success by {
                    assert(results@[j] == prev[j]);
                }
            }
            index += 1;
        }
        context.restore_accounts(snapshot);
        TransactionResult {
            instruction_results: results,
            total_compute_units: total_cu,
            total_execution_time: total_et,
        }
    }
}

} // verus!
