use version_adapter::canonical::{
    Event, ExecutionLogs, ExecutionOutcome, FailureReason, L2ToL1Log, Refunds, StorageLogQuery,
};
use version_adapter::convert::{finished_batch_from, tx_result_from, ConvertInto};
use version_adapter::raw::{
    BlockTipResult, FailureDescriptor, V1BlockResult, V1FullResult, V2BlockResult, V2FullResult,
    V3BlockResult, V3FullResult, VersionedBlockResult,
};

fn sample_event(seed: u64) -> Event {
    Event { address: seed, topic: seed + 1, value: seed + 2 }
}

fn sample_message(seed: u64) -> L2ToL1Log {
    L2ToL1Log { shard_id: 0, tx_number_in_block: 1, sender: seed, key: seed + 1, value: seed + 2 }
}

fn sample_storage_access(seed: u64) -> StorageLogQuery {
    StorageLogQuery {
        address: seed,
        key: seed + 1,
        read_value: seed + 2,
        written_value: seed + 3,
        is_write: seed % 2 == 0,
    }
}

fn sample_tip(failure: Option<FailureDescriptor>) -> BlockTipResult {
    BlockTipResult {
        failure,
        logs: ExecutionLogs {
            events: vec![sample_event(10)],
            l2_to_l1_logs: Vec::new(),
            storage_logs: vec![sample_storage_access(20)],
            total_log_queries_count: 4,
        },
        contracts_used: 2,
        cycles_used: 5,
    }
}

fn sample_v1_full(failure: Option<FailureDescriptor>) -> V1FullResult {
    V1FullResult {
        failure,
        return_data: vec![0xca, 0xfe],
        events: vec![sample_event(30), sample_event(40)],
        storage_log_queries: vec![sample_storage_access(50)],
        used_contract_hashes: vec![111, 222],
        l2_to_l1_logs: vec![sample_message(60)],
        total_log_queries: 9,
        cycles_used: 77,
        contracts_used: 3,
        gas_used: 1000,
    }
}

fn sample_v2_full(failure: Option<FailureDescriptor>) -> V2FullResult {
    V2FullResult {
        failure,
        return_data: vec![0xca, 0xfe],
        events: vec![sample_event(30), sample_event(40)],
        storage_log_queries: vec![sample_storage_access(50)],
        used_contract_hashes: vec![111, 222],
        l2_to_l1_logs: vec![sample_message(60)],
        total_log_queries: 9,
        cycles_used: 77,
        contracts_used: 3,
        gas_used: 1000,
        computational_gas_used: 900,
    }
}

fn sample_v3_full(failure: Option<FailureDescriptor>) -> V3FullResult {
    V3FullResult {
        failure,
        return_data: vec![0xca, 0xfe],
        events: vec![sample_event(30), sample_event(40)],
        storage_log_queries: vec![sample_storage_access(50)],
        used_contract_hashes: vec![111, 222],
        l2_to_l1_logs: vec![sample_message(60)],
        total_log_queries: 9,
        cycles_used: 77,
        contracts_used: 3,
        gas_used: 1000,
        computational_gas_used: 777,
    }
}

#[test]
fn v1_batch_tip_without_failure_descriptor() {
    // Block-tip run with no failure descriptor, gas_used = 1000,
    // cycles_used = 5, one event, zero cross-layer messages.
    let raw = V1BlockResult { block_tip: sample_tip(None), full: sample_v1_full(None) };
    let batch = finished_batch_from(VersionedBlockResult::V1(raw));
    let tip = &batch.block_tip_execution_result;

    match &tip.outcome {
        ExecutionOutcome::Success { output } => assert_eq!(output, &vec![0xca, 0xfe]),
        _ => panic!("expected a success outcome"),
    }
    assert_eq!(tip.logs.events, vec![sample_event(10)]);
    assert!(tip.logs.l2_to_l1_logs.is_empty());
    assert_eq!(tip.statistics.cycles_used, 5);
    assert_eq!(tip.statistics.gas_used, 1000);
    // V1 policy: the batch-tip computational sub-metric equals gas_used.
    assert_eq!(tip.statistics.computational_gas_used, 1000);
    assert_eq!(tip.refunds, Refunds { gas_refunded: 0, operator_suggested_refund: 0 });
}

#[test]
fn v2_with_failure_descriptor_is_revert_with_mapped_reason() {
    let descriptor = FailureDescriptor::Reverted(FailureReason { code: 11, data: vec![1, 2] });
    let raw = V2BlockResult {
        block_tip: sample_tip(None),
        full: sample_v2_full(Some(descriptor)),
    };
    let result = tx_result_from(VersionedBlockResult::V2(raw));
    match result.outcome {
        ExecutionOutcome::Revert { reason } => {
            assert_eq!(reason.code, 11);
            assert_eq!(reason.data, vec![1, 2]);
        }
        _ => panic!("expected a revert outcome"),
    }
}

#[test]
fn v2_with_halt_descriptor_is_halt_with_mapped_reason() {
    let descriptor = FailureDescriptor::Halted(FailureReason { code: 13, data: Vec::new() });
    let raw = V2BlockResult {
        block_tip: sample_tip(None),
        full: sample_v2_full(Some(descriptor)),
    };
    let result = tx_result_from(VersionedBlockResult::V2(raw));
    match result.outcome {
        ExecutionOutcome::Halt { reason } => {
            assert_eq!(reason.code, 13);
            assert!(reason.data.is_empty());
        }
        _ => panic!("expected a halt outcome"),
    }
}

#[test]
fn v3_full_batch_keeps_distinct_gas_metrics() {
    // computational_gas_used (777) differs from gas_used (1000): both pass
    // through unchanged and stay unequal.
    let raw = V3BlockResult { block_tip: sample_tip(None), full: sample_v3_full(None) };
    let batch = finished_batch_from(VersionedBlockResult::V3(raw));
    let stats = &batch.block_tip_execution_result.statistics;
    assert_eq!(stats.gas_used, 1000);
    assert_eq!(stats.computational_gas_used, 777);
    assert_ne!(stats.gas_used, stats.computational_gas_used);

    let raw = V3BlockResult { block_tip: sample_tip(None), full: sample_v3_full(None) };
    let result = tx_result_from(VersionedBlockResult::V3(raw));
    assert_eq!(result.statistics.gas_used, 1000);
    assert_eq!(result.statistics.computational_gas_used, 777);
}

#[test]
fn v1_tx_result_has_zero_computational_gas() {
    let raw = V1BlockResult { block_tip: sample_tip(None), full: sample_v1_full(None) };
    let result = tx_result_from(VersionedBlockResult::V1(raw));
    assert_eq!(result.statistics.computational_gas_used, 0);
    assert_eq!(result.statistics.gas_used, 1000);
}

#[test]
fn v2_tx_result_passes_computational_gas_through() {
    let raw = V2BlockResult { block_tip: sample_tip(None), full: sample_v2_full(None) };
    let result = tx_result_from(VersionedBlockResult::V2(raw));
    assert_eq!(result.statistics.computational_gas_used, 900);
    assert_eq!(result.statistics.gas_used, 1000);
}

#[test]
fn tx_result_round_trips_every_shared_field() {
    let raw = V2BlockResult { block_tip: sample_tip(None), full: sample_v2_full(None) };
    let result = tx_result_from(VersionedBlockResult::V2(raw));

    assert_eq!(result.logs.events, vec![sample_event(30), sample_event(40)]);
    assert_eq!(result.logs.l2_to_l1_logs, vec![sample_message(60)]);
    assert_eq!(result.logs.storage_logs, vec![sample_storage_access(50)]);
    assert_eq!(result.logs.total_log_queries_count, 9);
    assert_eq!(result.statistics.total_log_queries, 9);
    assert_eq!(result.statistics.contracts_used, 3);
    assert_eq!(result.statistics.cycles_used, 77);
}

#[test]
fn finished_batch_round_trips_the_final_state() {
    let raw = V1BlockResult { block_tip: sample_tip(None), full: sample_v1_full(None) };
    let batch = finished_batch_from(VersionedBlockResult::V1(raw));
    let state = &batch.final_execution_state;

    assert_eq!(state.events, vec![sample_event(30), sample_event(40)]);
    assert_eq!(state.storage_log_queries, vec![sample_storage_access(50)]);
    assert_eq!(state.used_contract_hashes, vec![111, 222]);
    assert_eq!(state.l2_to_l1_logs, vec![sample_message(60)]);
    assert_eq!(state.total_log_queries, 9);
    assert_eq!(state.cycles_used, 77);
}

#[test]
fn cross_field_consistency_holds_for_every_version() {
    let v1 = VersionedBlockResult::V1(V1BlockResult {
        block_tip: sample_tip(None),
        full: sample_v1_full(None),
    });
    let v2 = VersionedBlockResult::V2(V2BlockResult {
        block_tip: sample_tip(None),
        full: sample_v2_full(None),
    });
    let v3 = VersionedBlockResult::V3(V3BlockResult {
        block_tip: sample_tip(None),
        full: sample_v3_full(None),
    });
    for value in [v1, v2, v3] {
        let result = tx_result_from(value);
        assert_eq!(result.statistics.total_log_queries, result.logs.total_log_queries_count);
    }
}

#[test]
fn legacy_fields_are_zeroed_for_every_version() {
    let v1 = VersionedBlockResult::V1(V1BlockResult {
        block_tip: sample_tip(None),
        full: sample_v1_full(None),
    });
    let v2 = VersionedBlockResult::V2(V2BlockResult {
        block_tip: sample_tip(None),
        full: sample_v2_full(None),
    });
    let v3 = VersionedBlockResult::V3(V3BlockResult {
        block_tip: sample_tip(None),
        full: sample_v3_full(None),
    });
    for value in [v1, v2, v3] {
        let batch = finished_batch_from(value);
        let zero = Refunds { gas_refunded: 0, operator_suggested_refund: 0 };
        assert_eq!(batch.block_tip_execution_result.refunds, zero);
        assert!(batch.final_execution_state.storage_refunds.is_empty());
        assert!(batch.final_bootloader_memory.is_none());
    }
}

#[test]
fn batch_tip_with_failure_descriptor_keeps_its_reason() {
    let descriptor = FailureDescriptor::Halted(FailureReason { code: 5, data: vec![8] });
    let raw = V3BlockResult {
        block_tip: sample_tip(Some(descriptor)),
        full: sample_v3_full(None),
    };
    let batch = finished_batch_from(VersionedBlockResult::V3(raw));
    match batch.block_tip_execution_result.outcome {
        ExecutionOutcome::Halt { reason } => {
            assert_eq!(reason.code, 5);
            assert_eq!(reason.data, vec![8]);
        }
        _ => panic!("expected a halt outcome at the block tip"),
    }
}

#[test]
fn conversion_works_through_the_generic_contract() {
    let raw = V1BlockResult { block_tip: sample_tip(None), full: sample_v1_full(None) };
    let result: version_adapter::canonical::ExecutionResultAndLogs = raw.convert_into();
    assert_eq!(result.statistics.gas_used, 1000);

    let raw = V2BlockResult { block_tip: sample_tip(None), full: sample_v2_full(None) };
    let batch: version_adapter::canonical::FinishedL1Batch = raw.convert_into();
    assert_eq!(batch.block_tip_execution_result.statistics.computational_gas_used, 900);
}

#[test]
fn default_refunds_are_the_canonical_zero() {
    let refunds = Refunds::default();
    assert_eq!(refunds.gas_refunded, 0);
    assert_eq!(refunds.operator_suggested_refund, 0);
}
