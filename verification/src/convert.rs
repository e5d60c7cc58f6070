//! The per-version converters: one pair per historical version, mapping that
//! version's raw batch run onto the canonical per-transaction result and the
//! canonical finished-batch result.
//!
//! Every conversion is a total pure function of its input. The per-version
//! defaulting policy is: the computational-gas sub-metric, absent in V1, is
//! zero at the transaction level and equals `gas_used` at the batch tip;
//! refunds are the canonical zero value for all three versions; storage-level
//! refunds are empty; the bootloader-memory snapshot is absent.

use vstd::prelude::*;
use crate::canonical::{
    ExecutionLogs, ExecutionResultAndLogs, ExecutionStatistics, FinalExecutionState,
    FinishedL1Batch, Refunds,
};
use crate::classifier::{classify, spec_classify};
use crate::raw::{
    V1BlockResult, V1FullResult, V2BlockResult, V2FullResult, V3BlockResult, V3FullResult,
    VersionedBlockResult,
};

verus! {

/// The generic conversion contract: `Self::convert_from(source)` yields the
/// one canonical value related to `source` by `spec_converted_from`.
pub trait ConvertFrom<Source>: Sized {
    /// The conversion relation: holds exactly when `result` is the canonical
    /// image of `source`.
    spec fn spec_converted_from(source: Source, result: Self) -> bool;

    /// Converts a raw value into its canonical image.
    fn convert_from(source: Source) -> (result: Self)
        ensures
            Self::spec_converted_from(source, result),
    ;
}

/// The inverse direction of the generic conversion contract, so callers may
/// request a conversion either way without duplicating logic. It is provided
/// for every pair with a `ConvertFrom` instance by the blanket
/// implementation below.
pub trait ConvertInto<Target>: Sized {
    /// The conversion relation, seen from the source side.
    spec fn spec_converted_into(self, result: Target) -> bool;

    /// Converts this raw value into its canonical image.
    fn convert_into(self) -> (result: Target)
        ensures
            self.spec_converted_into(result),
    ;
}

impl<Source, Target: ConvertFrom<Source>> ConvertInto<Target> for Source {
    open spec fn spec_converted_into(self, result: Target) -> bool {
        Target::spec_converted_from(self, result)
    }

    fn convert_into(self) -> (result: Target) {
        Target::convert_from(self)
    }
}

/// The canonical per-transaction result of a V1 batch run. V1 cannot report
/// the computational-gas sub-metric, so at the transaction level it is zero.
pub open spec fn spec_tx_result_from_v1(value: V1BlockResult) -> ExecutionResultAndLogs {
    ExecutionResultAndLogs {
        outcome: spec_classify(value.full.failure, value.full.return_data),
        logs: ExecutionLogs {
            events: value.full.events,
            l2_to_l1_logs: value.full.l2_to_l1_logs,
            storage_logs: value.full.storage_log_queries,
            total_log_queries_count: value.full.total_log_queries,
        },
        statistics: ExecutionStatistics {
            contracts_used: value.full.contracts_used,
            cycles_used: value.full.cycles_used,
            gas_used: value.full.gas_used,
            computational_gas_used: 0,
            total_log_queries: value.full.total_log_queries,
        },
        refunds: Refunds::spec_zero(),
    }
}

/// The canonical per-transaction result of a V2 batch run: the
/// computational-gas sub-metric passes through.
pub open spec fn spec_tx_result_from_v2(value: V2BlockResult) -> ExecutionResultAndLogs {
    ExecutionResultAndLogs {
        outcome: spec_classify(value.full.failure, value.full.return_data),
        logs: ExecutionLogs {
            events: value.full.events,
            l2_to_l1_logs: value.full.l2_to_l1_logs,
            storage_logs: value.full.storage_log_queries,
            total_log_queries_count: value.full.total_log_queries,
        },
        statistics: ExecutionStatistics {
            contracts_used: value.full.contracts_used,
            cycles_used: value.full.cycles_used,
            gas_used: value.full.gas_used,
            computational_gas_used: value.full.computational_gas_used,
            total_log_queries: value.full.total_log_queries,
        },
        refunds: Refunds::spec_zero(),
    }
}

/// The canonical per-transaction result of a V3 batch run: the
/// computational-gas sub-metric passes through.
pub open spec fn spec_tx_result_from_v3(value: V3BlockResult) -> ExecutionResultAndLogs {
    ExecutionResultAndLogs {
        outcome: spec_classify(value.full.failure, value.full.return_data),
        logs: ExecutionLogs {
            events: value.full.events,
            l2_to_l1_logs: value.full.l2_to_l1_logs,
            storage_logs: value.full.storage_log_queries,
            total_log_queries_count: value.full.total_log_queries,
        },
        statistics: ExecutionStatistics {
            contracts_used: value.full.contracts_used,
            cycles_used: value.full.cycles_used,
            gas_used: value.full.gas_used,
            computational_gas_used: value.full.computational_gas_used,
            total_log_queries: value.full.total_log_queries,
        },
        refunds: Refunds::spec_zero(),
    }
}

/// The canonical block-tip result of a V1 batch run. V1 kept no separate
/// computational-gas metric at the batch tip, so it is defined to equal
/// `gas_used`.
pub open spec fn spec_batch_tip_from_v1(value: V1BlockResult) -> ExecutionResultAndLogs {
    ExecutionResultAndLogs {
        outcome: spec_classify(value.block_tip.failure, value.full.return_data),
        logs: value.block_tip.logs,
        statistics: ExecutionStatistics {
            contracts_used: value.block_tip.contracts_used,
            cycles_used: value.block_tip.cycles_used,
            gas_used: value.full.gas_used,
            computational_gas_used: value.full.gas_used,
            total_log_queries: value.block_tip.logs.total_log_queries_count,
        },
        refunds: Refunds::spec_zero(),
    }
}

/// The canonical block-tip result of a V2 batch run.
pub open spec fn spec_batch_tip_from_v2(value: V2BlockResult) -> ExecutionResultAndLogs {
    ExecutionResultAndLogs {
        outcome: spec_classify(value.block_tip.failure, value.full.return_data),
        logs: value.block_tip.logs,
        statistics: ExecutionStatistics {
            contracts_used: value.block_tip.contracts_used,
            cycles_used: value.block_tip.cycles_used,
            gas_used: value.full.gas_used,
            computational_gas_used: value.full.computational_gas_used,
            total_log_queries: value.block_tip.logs.total_log_queries_count,
        },
        refunds: Refunds::spec_zero(),
    }
}

/// The canonical block-tip result of a V3 batch run.
pub open spec fn spec_batch_tip_from_v3(value: V3BlockResult) -> ExecutionResultAndLogs {
    ExecutionResultAndLogs {
        outcome: spec_classify(value.block_tip.failure, value.full.return_data),
        logs: value.block_tip.logs,
        statistics: ExecutionStatistics {
            contracts_used: value.block_tip.contracts_used,
            cycles_used: value.block_tip.cycles_used,
            gas_used: value.full.gas_used,
            computational_gas_used: value.full.computational_gas_used,
            total_log_queries: value.block_tip.logs.total_log_queries_count,
        },
        refunds: Refunds::spec_zero(),
    }
}

/// Relates a V1 full-batch result to its canonical final execution state:
/// every cumulative field carries over unchanged, and the storage-refund
/// sequence is empty because V1 predates storage-level refund tracking.
pub open spec fn spec_final_state_from_v1(full: V1FullResult, state: FinalExecutionState) -> bool {
    &&& state.events == full.events
    &&& state.storage_log_queries == full.storage_log_queries
    &&& state.used_contract_hashes == full.used_contract_hashes
    &&& state.l2_to_l1_logs == full.l2_to_l1_logs
    &&& state.total_log_queries == full.total_log_queries
    &&& state.cycles_used == full.cycles_used
    &&& state.storage_refunds@ == Seq::<u64>::empty()
}

/// Relates a V2 full-batch result to its canonical final execution state.
pub open spec fn spec_final_state_from_v2(full: V2FullResult, state: FinalExecutionState) -> bool {
    &&& state.events == full.events
    &&& state.storage_log_queries == full.storage_log_queries
    &&& state.used_contract_hashes == full.used_contract_hashes
    &&& state.l2_to_l1_logs == full.l2_to_l1_logs
    &&& state.total_log_queries == full.total_log_queries
    &&& state.cycles_used == full.cycles_used
    &&& state.storage_refunds@ == Seq::<u64>::empty()
}

/// Relates a V3 full-batch result to its canonical final execution state.
pub open spec fn spec_final_state_from_v3(full: V3FullResult, state: FinalExecutionState) -> bool {
    &&& state.events == full.events
    &&& state.storage_log_queries == full.storage_log_queries
    &&& state.used_contract_hashes == full.used_contract_hashes
    &&& state.l2_to_l1_logs == full.l2_to_l1_logs
    &&& state.total_log_queries == full.total_log_queries
    &&& state.cycles_used == full.cycles_used
    &&& state.storage_refunds@ == Seq::<u64>::empty()
}

/// Relates a V1 batch run to its canonical finished-batch result. The
/// bootloader-memory snapshot is absent for every historical version.
pub open spec fn spec_finished_batch_from_v1(value: V1BlockResult, batch: FinishedL1Batch) -> bool {
    &&& batch.block_tip_execution_result == spec_batch_tip_from_v1(value)
    &&& spec_final_state_from_v1(value.full, batch.final_execution_state)
    &&& batch.final_bootloader_memory is None
}

/// Relates a V2 batch run to its canonical finished-batch result.
pub open spec fn spec_finished_batch_from_v2(value: V2BlockResult, batch: FinishedL1Batch) -> bool {
    &&& batch.block_tip_execution_result == spec_batch_tip_from_v2(value)
    &&& spec_final_state_from_v2(value.full, batch.final_execution_state)
    &&& batch.final_bootloader_memory is None
}

/// Relates a V3 batch run to its canonical finished-batch result.
pub open spec fn spec_finished_batch_from_v3(value: V3BlockResult, batch: FinishedL1Batch) -> bool {
    &&& batch.block_tip_execution_result == spec_batch_tip_from_v3(value)
    &&& spec_final_state_from_v3(value.full, batch.final_execution_state)
    &&& batch.final_bootloader_memory is None
}

impl ConvertFrom<V1BlockResult> for ExecutionResultAndLogs {
    open spec fn spec_converted_from(source: V1BlockResult, result: Self) -> bool {
        result == spec_tx_result_from_v1(source)
    }

    fn convert_from(source: V1BlockResult) -> (result: Self) {
        ExecutionResultAndLogs {
            outcome: classify(source.full.failure, source.full.return_data),
            logs: ExecutionLogs {
                events: source.full.events,
                l2_to_l1_logs: source.full.l2_to_l1_logs,
                storage_logs: source.full.storage_log_queries,
                total_log_queries_count: source.full.total_log_queries,
            },
            statistics: ExecutionStatistics {
                contracts_used: source.full.contracts_used,
                cycles_used: source.full.cycles_used,
                gas_used: source.full.gas_used,
                computational_gas_used: 0,
                total_log_queries: source.full.total_log_queries,
            },
            refunds: Refunds::default(),
        }
    }
}

impl ConvertFrom<V2BlockResult> for ExecutionResultAndLogs {
    open spec fn spec_converted_from(source: V2BlockResult, result: Self) -> bool {
        result == spec_tx_result_from_v2(source)
    }

    fn convert_from(source: V2BlockResult) -> (result: Self) {
        ExecutionResultAndLogs {
            outcome: classify(source.full.failure, source.full.return_data),
            logs: ExecutionLogs {
                events: source.full.events,
                l2_to_l1_logs: source.full.l2_to_l1_logs,
                storage_logs: source.full.storage_log_queries,
                total_log_queries_count: source.full.total_log_queries,
            },
            statistics: ExecutionStatistics {
                contracts_used: source.full.contracts_used,
                cycles_used: source.full.cycles_used,
                gas_used: source.full.gas_used,
                computational_gas_used: source.full.computational_gas_used,
                total_log_queries: source.full.total_log_queries,
            },
            refunds: Refunds::default(),
        }
    }
}

impl ConvertFrom<V3BlockResult> for ExecutionResultAndLogs {
    open spec fn spec_converted_from(source: V3BlockResult, result: Self) -> bool {
        result == spec_tx_result_from_v3(source)
    }

    fn convert_from(source: V3BlockResult) -> (result: Self) {
        ExecutionResultAndLogs {
            outcome: classify(source.full.failure, source.full.return_data),
            logs: ExecutionLogs {
                events: source.full.events,
                l2_to_l1_logs: source.full.l2_to_l1_logs,
                storage_logs: source.full.storage_log_queries,
                total_log_queries_count: source.full.total_log_queries,
            },
            statistics: ExecutionStatistics {
                contracts_used: source.full.contracts_used,
                cycles_used: source.full.cycles_used,
                gas_used: source.full.gas_used,
                computational_gas_used: source.full.computational_gas_used,
                total_log_queries: source.full.total_log_queries,
            },
            refunds: Refunds::default(),
        }
    }
}

impl ConvertFrom<V1BlockResult> for FinishedL1Batch {
    open spec fn spec_converted_from(source: V1BlockResult, result: Self) -> bool {
        spec_finished_batch_from_v1(source, result)
    }

    fn convert_from(source: V1BlockResult) -> (result: Self) {
        let tip_log_count: usize = source.block_tip.logs.total_log_queries_count;
        FinishedL1Batch {
            block_tip_execution_result: ExecutionResultAndLogs {
                outcome: classify(source.block_tip.failure, source.full.return_data),
                logs: source.block_tip.logs,
                statistics: ExecutionStatistics {
                    contracts_used: source.block_tip.contracts_used,
                    cycles_used: source.block_tip.cycles_used,
                    gas_used: source.full.gas_used,
                    computational_gas_used: source.full.gas_used,
                    total_log_queries: tip_log_count,
                },
                refunds: Refunds::default(),
            },
            final_execution_state: FinalExecutionState {
                events: source.full.events,
                storage_log_queries: source.full.storage_log_queries,
                used_contract_hashes: source.full.used_contract_hashes,
                l2_to_l1_logs: source.full.l2_to_l1_logs,
                total_log_queries: source.full.total_log_queries,
                cycles_used: source.full.cycles_used,
                storage_refunds: Vec::new(),
            },
            final_bootloader_memory: None,
        }
    }
}

impl ConvertFrom<V2BlockResult> for FinishedL1Batch {
    open spec fn spec_converted_from(source: V2BlockResult, result: Self) -> bool {
        spec_finished_batch_from_v2(source, result)
    }

    fn convert_from(source: V2BlockResult) -> (result: Self) {
        let tip_log_count: usize = source.block_tip.logs.total_log_queries_count;
        FinishedL1Batch {
            block_tip_execution_result: ExecutionResultAndLogs {
                outcome: classify(source.block_tip.failure, source.full.return_data),
                logs: source.block_tip.logs,
                statistics: ExecutionStatistics {
                    contracts_used: source.block_tip.contracts_used,
                    cycles_used: source.block_tip.cycles_used,
                    gas_used: source.full.gas_used,
                    computational_gas_used: source.full.computational_gas_used,
                    total_log_queries: tip_log_count,
                },
                refunds: Refunds::default(),
            },
            final_execution_state: FinalExecutionState {
                events: source.full.events,
                storage_log_queries: source.full.storage_log_queries,
                used_contract_hashes: source.full.used_contract_hashes,
                l2_to_l1_logs: source.full.l2_to_l1_logs,
                total_log_queries: source.full.total_log_queries,
                cycles_used: source.full.cycles_used,
                storage_refunds: Vec::new(),
            },
            final_bootloader_memory: None,
        }
    }
}

impl ConvertFrom<V3BlockResult> for FinishedL1Batch {
    open spec fn spec_converted_from(source: V3BlockResult, result: Self) -> bool {
        spec_finished_batch_from_v3(source, result)
    }

    fn convert_from(source: V3BlockResult) -> (result: Self) {
        let tip_log_count: usize = source.block_tip.logs.total_log_queries_count;
        FinishedL1Batch {
            block_tip_execution_result: ExecutionResultAndLogs {
                outcome: classify(source.block_tip.failure, source.full.return_data),
                logs: source.block_tip.logs,
                statistics: ExecutionStatistics {
                    contracts_used: source.block_tip.contracts_used,
                    cycles_used: source.block_tip.cycles_used,
                    gas_used: source.full.gas_used,
                    computational_gas_used: source.full.computational_gas_used,
                    total_log_queries: tip_log_count,
                },
                refunds: Refunds::default(),
            },
            final_execution_state: FinalExecutionState {
                events: source.full.events,
                storage_log_queries: source.full.storage_log_queries,
                used_contract_hashes: source.full.used_contract_hashes,
                l2_to_l1_logs: source.full.l2_to_l1_logs,
                total_log_queries: source.full.total_log_queries,
                cycles_used: source.full.cycles_used,
                storage_refunds: Vec::new(),
            },
            final_bootloader_memory: None,
        }
    }
}

/// The canonical per-transaction result of a batch run of any version.
pub open spec fn spec_tx_result_from(value: VersionedBlockResult) -> ExecutionResultAndLogs {
    match value {
        VersionedBlockResult::V1(v) => spec_tx_result_from_v1(v),
        VersionedBlockResult::V2(v) => spec_tx_result_from_v2(v),
        VersionedBlockResult::V3(v) => spec_tx_result_from_v3(v),
    }
}

/// Relates a batch run of any version to its canonical finished-batch
/// result.
pub open spec fn spec_finished_batch_from(
    value: VersionedBlockResult,
    batch: FinishedL1Batch,
) -> bool {
    match value {
        VersionedBlockResult::V1(v) => spec_finished_batch_from_v1(v, batch),
        VersionedBlockResult::V2(v) => spec_finished_batch_from_v2(v, batch),
        VersionedBlockResult::V3(v) => spec_finished_batch_from_v3(v, batch),
    }
}

/// Converts a version-tagged batch run to the canonical per-transaction
/// result, dispatching on the version tag.
pub fn tx_result_from(value: VersionedBlockResult) -> (result: ExecutionResultAndLogs)
    ensures
        result == spec_tx_result_from(value),
{
    match value {
        VersionedBlockResult::V1(v) => ExecutionResultAndLogs::convert_from(v),
        VersionedBlockResult::V2(v) => ExecutionResultAndLogs::convert_from(v),
        VersionedBlockResult::V3(v) => ExecutionResultAndLogs::convert_from(v),
    }
}

/// Converts a version-tagged batch run to the canonical finished-batch
/// result, dispatching on the version tag.
pub fn finished_batch_from(value: VersionedBlockResult) -> (result: FinishedL1Batch)
    ensures
        spec_finished_batch_from(value, result),
{
    match value {
        VersionedBlockResult::V1(v) => FinishedL1Batch::convert_from(v),
        VersionedBlockResult::V2(v) => FinishedL1Batch::convert_from(v),
        VersionedBlockResult::V3(v) => FinishedL1Batch::convert_from(v),
    }
}

} // verus!
