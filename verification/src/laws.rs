//! The laws that hold of every conversion, stated over the conversion
//! relations of `convert` and proved once for all inputs and all three
//! historical versions.

use vstd::prelude::*;
use crate::canonical::{ExecutionOutcome, FinishedL1Batch, Refunds};
use crate::classifier::spec_classify;
use crate::convert::{spec_finished_batch_from, spec_tx_result_from};
use crate::raw::{FailureDescriptor, VersionedBlockResult};

verus! {

/// Round-trip faithfulness, transaction level: every field present in both
/// the raw and the canonical shape carries over exactly — no truncation, no
/// reordering, no recomputation.
pub proof fn lemma_tx_round_trip_faithful(value: VersionedBlockResult)
    ensures
        spec_tx_result_from(value).logs.events == value.full_events(),
        spec_tx_result_from(value).logs.l2_to_l1_logs == value.full_l2_to_l1_logs(),
        spec_tx_result_from(value).logs.storage_logs == value.full_storage_log_queries(),
        spec_tx_result_from(value).logs.total_log_queries_count == value.full_total_log_queries(),
        spec_tx_result_from(value).statistics.contracts_used == value.full_contracts_used(),
        spec_tx_result_from(value).statistics.cycles_used == value.full_cycles_used(),
        spec_tx_result_from(value).statistics.gas_used == value.gas_used(),
        spec_tx_result_from(value).statistics.total_log_queries == value.full_total_log_queries(),
{
}

/// Round-trip faithfulness, batch level: the block-tip logs and counters and
/// every cumulative field of the final execution state carry over exactly.
pub proof fn lemma_batch_round_trip_faithful(value: VersionedBlockResult, batch: FinishedL1Batch)
    requires
        spec_finished_batch_from(value, batch),
    ensures
        batch.block_tip_execution_result.logs == value.block_tip().logs,
        batch.block_tip_execution_result.statistics.contracts_used == value.block_tip().contracts_used,
        batch.block_tip_execution_result.statistics.cycles_used == value.block_tip().cycles_used,
        batch.block_tip_execution_result.statistics.gas_used == value.gas_used(),
        batch.final_execution_state.events == value.full_events(),
        batch.final_execution_state.storage_log_queries == value.full_storage_log_queries(),
        batch.final_execution_state.used_contract_hashes == value.used_contract_hashes(),
        batch.final_execution_state.l2_to_l1_logs == value.full_l2_to_l1_logs(),
        batch.final_execution_state.total_log_queries == value.full_total_log_queries(),
        batch.final_execution_state.cycles_used == value.full_cycles_used(),
{
}

/// Cross-field consistency, transaction level: the statistics aggregate and
/// the log aggregate record the same total log-query count.
pub proof fn lemma_tx_cross_field_consistency(value: VersionedBlockResult)
    ensures
        spec_tx_result_from(value).statistics.total_log_queries == spec_tx_result_from(
            value,
        ).logs.total_log_queries_count,
{
}

/// Cross-field consistency, batch level: the block-tip statistics and the
/// block-tip logs record the same total log-query count.
pub proof fn lemma_batch_cross_field_consistency(
    value: VersionedBlockResult,
    batch: FinishedL1Batch,
)
    requires
        spec_finished_batch_from(value, batch),
    ensures
        batch.block_tip_execution_result.statistics.total_log_queries
            == batch.block_tip_execution_result.logs.total_log_queries_count,
{
}

/// Success-output invariant at the classifier: the outcome is `Success`
/// exactly when no failure descriptor is present, a `Success` outcome
/// carries the return-data bytes exactly, and a present descriptor maps to
/// `Revert` or `Halt` by its own classification with the reason unchanged.
pub proof fn lemma_classifier_success_output(
    failure: Option<FailureDescriptor>,
    return_data: Vec<u8>,
)
    ensures
        spec_classify(failure, return_data) is Success <==> failure is None,
        (spec_classify(failure, return_data) matches ExecutionOutcome::Success { output } ==> output
            == return_data),
        (failure matches Some(FailureDescriptor::Reverted(reason)) ==> spec_classify(
            failure,
            return_data,
        ) == (ExecutionOutcome::Revert { reason })),
        (failure matches Some(FailureDescriptor::Halted(reason)) ==> spec_classify(
            failure,
            return_data,
        ) == (ExecutionOutcome::Halt { reason })),
{
}

/// Success-output invariant, transaction level: the converted outcome is
/// `Success` exactly when the full-batch result carries no failure
/// descriptor, and then its output equals the raw return-data bytes.
pub proof fn lemma_tx_success_output(value: VersionedBlockResult)
    ensures
        spec_tx_result_from(value).outcome is Success <==> value.full_failure() is None,
        (spec_tx_result_from(value).outcome matches ExecutionOutcome::Success { output } ==> output
            == value.return_data()),
{
}

/// Success-output invariant, batch level: the block-tip outcome is `Success`
/// exactly when the block tip carries no failure descriptor, and then its
/// output equals the raw return-data bytes.
pub proof fn lemma_batch_tip_success_output(value: VersionedBlockResult, batch: FinishedL1Batch)
    requires
        spec_finished_batch_from(value, batch),
    ensures
        batch.block_tip_execution_result.outcome is Success <==> value.block_tip().failure is None,
        (batch.block_tip_execution_result.outcome matches ExecutionOutcome::Success { output }
            ==> output == value.return_data()),
{
}

/// Legacy-refund invariant, transaction level: every conversion from a
/// historical version yields the canonical zero refunds.
pub proof fn lemma_tx_legacy_refunds(value: VersionedBlockResult)
    ensures
        spec_tx_result_from(value).refunds == Refunds::spec_zero(),
{
}

/// Legacy-refund invariant, batch level: the block-tip refunds are the
/// canonical zero value and the storage-refund sequence is empty, for all
/// three historical versions.
pub proof fn lemma_batch_legacy_refunds(value: VersionedBlockResult, batch: FinishedL1Batch)
    requires
        spec_finished_batch_from(value, batch),
    ensures
        batch.block_tip_execution_result.refunds == Refunds::spec_zero(),
        batch.final_execution_state.storage_refunds@ == Seq::<u64>::empty(),
{
}

/// The per-version computational-gas policy, collected in one place: V1
/// cannot report the sub-metric, so it is zero at the transaction level and
/// equals `gas_used` at the batch tip; V2 and V3 report it and it passes
/// through unchanged at both levels.
pub proof fn lemma_computational_gas_policy(value: VersionedBlockResult, batch: FinishedL1Batch)
    requires
        spec_finished_batch_from(value, batch),
    ensures
        (value matches VersionedBlockResult::V1(_) ==> spec_tx_result_from(
            value,
        ).statistics.computational_gas_used == 0),
        (value matches VersionedBlockResult::V1(_)
            ==> batch.block_tip_execution_result.statistics.computational_gas_used
            == value.gas_used()),
        (value matches VersionedBlockResult::V2(v) ==> spec_tx_result_from(
            value,
        ).statistics.computational_gas_used == v.full.computational_gas_used
            && batch.block_tip_execution_result.statistics.computational_gas_used
            == v.full.computational_gas_used),
        (value matches VersionedBlockResult::V3(v) ==> spec_tx_result_from(
            value,
        ).statistics.computational_gas_used == v.full.computational_gas_used
            && batch.block_tip_execution_result.statistics.computational_gas_used
            == v.full.computational_gas_used),
{
}

/// Bootloader-memory invariant: no conversion from a historical version
/// carries a bootloader-memory snapshot.
pub proof fn lemma_bootloader_memory_absent(value: VersionedBlockResult, batch: FinishedL1Batch)
    requires
        spec_finished_batch_from(value, batch),
    ensures
        batch.final_bootloader_memory is None,
{
}

} // verus!
