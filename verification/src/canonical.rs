//! The canonical result model: the version-independent schema that every
//! historical raw result converges to.

use vstd::prelude::*;

verus! {

/// An event emitted by the virtual machine during execution.
#[derive(Clone, Copy, Debug, PartialEq, Eq, Structural)]
pub struct Event {
    pub address: u64,
    pub topic: u64,
    pub value: u64,
}

/// An outbound cross-layer message, sent from the rollup to the settlement
/// layer.
#[derive(Clone, Copy, Debug, PartialEq, Eq, Structural)]
pub struct L2ToL1Log {
    pub shard_id: u8,
    pub tx_number_in_block: u16,
    pub sender: u64,
    pub key: u64,
    pub value: u64,
}

/// One storage access recorded during execution.
#[derive(Clone, Copy, Debug, PartialEq, Eq, Structural)]
pub struct StorageLogQuery {
    pub address: u64,
    pub key: u64,
    pub read_value: u64,
    pub written_value: u64,
    pub is_write: bool,
}

/// The descriptive value carried by a failed execution: a numeric failure
/// code and the data bytes the failing call returned. Converters carry it
/// over unchanged.
#[derive(Clone, Debug, PartialEq, Eq)]
pub struct FailureReason {
    pub code: u64,
    pub data: Vec<u8>,
}

/// The canonical tri-state execution outcome. Exactly one variant holds at a
/// time; `Success` carries the full raw return-data bytes, never truncated or
/// synthesized.
#[derive(Clone, Debug, PartialEq, Eq)]
pub enum ExecutionOutcome {
    Success { output: Vec<u8> },
    Revert { reason: FailureReason },
    Halt { reason: FailureReason },
}

/// Ordered sequences of emitted events, outbound cross-layer messages and
/// storage accesses, together with the total log-query count.
#[derive(Clone, Debug, PartialEq, Eq)]
pub struct ExecutionLogs {
    pub events: Vec<Event>,
    pub l2_to_l1_logs: Vec<L2ToL1Log>,
    pub storage_logs: Vec<StorageLogQuery>,
    pub total_log_queries_count: usize,
}

/// Execution counters. `computational_gas_used` is a sub-metric of
/// `gas_used`; versions that cannot report it fill it by a fixed per-version
/// policy instead (zero at the transaction level, the full `gas_used` at the
/// batch tip).
#[derive(Clone, Copy, Debug, PartialEq, Eq, Structural)]
pub struct ExecutionStatistics {
    pub contracts_used: usize,
    pub cycles_used: u32,
    pub gas_used: u64,
    pub computational_gas_used: u64,
    pub total_log_queries: usize,
}

/// Gas refunded to the caller and any operator-side refund. For historical
/// versions predating refund tracking this is always the canonical zero
/// value, to be read as "unknown, assume none".
#[derive(Clone, Copy, Debug, PartialEq, Eq, Structural)]
pub struct Refunds {
    pub gas_refunded: u64,
    pub operator_suggested_refund: u64,
}

impl Refunds {
    /// The canonical zero value.
    pub open spec fn spec_zero() -> Refunds {
        Refunds { gas_refunded: 0, operator_suggested_refund: 0 }
    }
}

impl Default for Refunds {
    fn default() -> (refunds: Refunds)
        ensures
            refunds == Refunds::spec_zero(),
    {
        Refunds { gas_refunded: 0, operator_suggested_refund: 0 }
    }
}

/// The canonical per-transaction / per-block-tip result.
#[derive(Clone, Debug, PartialEq, Eq)]
pub struct ExecutionResultAndLogs {
    pub outcome: ExecutionOutcome,
    pub logs: ExecutionLogs,
    pub statistics: ExecutionStatistics,
    pub refunds: Refunds,
}

/// The cumulative state of a fully executed batch. `storage_refunds` is
/// empty for every historical version: storage-level refund tracking did not
/// exist yet.
#[derive(Clone, Debug, PartialEq, Eq)]
pub struct FinalExecutionState {
    pub events: Vec<Event>,
    pub storage_log_queries: Vec<StorageLogQuery>,
    pub used_contract_hashes: Vec<u64>,
    pub l2_to_l1_logs: Vec<L2ToL1Log>,
    pub total_log_queries: usize,
    pub cycles_used: u32,
    pub storage_refunds: Vec<u64>,
}

/// The canonical result of a finished batch. The bootloader-memory snapshot
/// is needed only to produce witnesses, which are never generated for
/// already-finalized historical batches, so for every historical version it
/// is absent.
#[derive(Clone, Debug, PartialEq, Eq)]
pub struct FinishedL1Batch {
    pub block_tip_execution_result: ExecutionResultAndLogs,
    pub final_execution_state: FinalExecutionState,
    pub final_bootloader_memory: Option<Vec<u64>>,
}

} // verus!
