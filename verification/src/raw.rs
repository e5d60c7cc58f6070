//! The raw result shapes emitted by the three historical virtual-machine
//! implementations, labeled oldest to newest V1, V2, V3. Each batch run
//! yields a block-tip result (the synthetic final step that closes the
//! batch) and a full-batch result with the cumulative counters.

use vstd::prelude::*;
use crate::canonical::{Event, ExecutionLogs, FailureReason, L2ToL1Log, StorageLogQuery};

verus! {

/// The failure descriptor carried by a raw result. Its absence means the
/// execution completed as a plain success; its presence classifies the
/// failure as a revert or a halt. The variant set is closed: a raw shape
/// with any other failure classification cannot be constructed, so a
/// conversion never meets an unmapped descriptor.
#[derive(Clone, Debug, PartialEq, Eq)]
pub enum FailureDescriptor {
    Reverted(FailureReason),
    Halted(FailureReason),
}

/// The raw block-tip result, common in shape to all three versions.
#[derive(Clone, Debug, PartialEq, Eq)]
pub struct BlockTipResult {
    pub failure: Option<FailureDescriptor>,
    pub logs: ExecutionLogs,
    pub contracts_used: usize,
    pub cycles_used: u32,
}

/// The V1 full-batch result. V1 predates the computational-gas sub-metric,
/// so no such field exists in its shape.
#[derive(Clone, Debug, PartialEq, Eq)]
pub struct V1FullResult {
    pub failure: Option<FailureDescriptor>,
    pub return_data: Vec<u8>,
    pub events: Vec<Event>,
    pub storage_log_queries: Vec<StorageLogQuery>,
    pub used_contract_hashes: Vec<u64>,
    pub l2_to_l1_logs: Vec<L2ToL1Log>,
    pub total_log_queries: usize,
    pub cycles_used: u32,
    pub contracts_used: usize,
    pub gas_used: u64,
}

/// The V2 full-batch result: V1's shape plus the computational-gas
/// sub-metric.
#[derive(Clone, Debug, PartialEq, Eq)]
pub struct V2FullResult {
    pub failure: Option<FailureDescriptor>,
    pub return_data: Vec<u8>,
    pub events: Vec<Event>,
    pub storage_log_queries: Vec<StorageLogQuery>,
    pub used_contract_hashes: Vec<u64>,
    pub l2_to_l1_logs: Vec<L2ToL1Log>,
    pub total_log_queries: usize,
    pub cycles_used: u32,
    pub contracts_used: usize,
    pub gas_used: u64,
    pub computational_gas_used: u64,
}

/// The V3 full-batch result. Structurally it matches V2, but it is a
/// distinct shape of a distinct interpreter and is converted by its own
/// operations.
#[derive(Clone, Debug, PartialEq, Eq)]
pub struct V3FullResult {
    pub failure: Option<FailureDescriptor>,
    pub return_data: Vec<u8>,
    pub events: Vec<Event>,
    pub storage_log_queries: Vec<StorageLogQuery>,
    pub used_contract_hashes: Vec<u64>,
    pub l2_to_l1_logs: Vec<L2ToL1Log>,
    pub total_log_queries: usize,
    pub cycles_used: u32,
    pub contracts_used: usize,
    pub gas_used: u64,
    pub computational_gas_used: u64,
}

/// A complete V1 batch run: block tip plus cumulative full result.
#[derive(Clone, Debug, PartialEq, Eq)]
pub struct V1BlockResult {
    pub block_tip: BlockTipResult,
    pub full: V1FullResult,
}

/// A complete V2 batch run.
#[derive(Clone, Debug, PartialEq, Eq)]
pub struct V2BlockResult {
    pub block_tip: BlockTipResult,
    pub full: V2FullResult,
}

/// A complete V3 batch run.
#[derive(Clone, Debug, PartialEq, Eq)]
pub struct V3BlockResult {
    pub block_tip: BlockTipResult,
    pub full: V3FullResult,
}

/// A raw batch run tagged with the version of the interpreter that produced
/// it. The union is closed: wiring in a new historical version forces an
/// extension here and, through exhaustive matching, in every conversion.
#[derive(Clone, Debug, PartialEq, Eq)]
pub enum VersionedBlockResult {
    V1(V1BlockResult),
    V2(V2BlockResult),
    V3(V3BlockResult),
}

impl VersionedBlockResult {
    /// The block-tip result of the run, whatever its version.
    pub open spec fn block_tip(self) -> BlockTipResult {
        match self {
            VersionedBlockResult::V1(v) => v.block_tip,
            VersionedBlockResult::V2(v) => v.block_tip,
            VersionedBlockResult::V3(v) => v.block_tip,
        }
    }

    /// The failure descriptor of the full-batch result.
    pub open spec fn full_failure(self) -> Option<FailureDescriptor> {
        match self {
            VersionedBlockResult::V1(v) => v.full.failure,
            VersionedBlockResult::V2(v) => v.full.failure,
            VersionedBlockResult::V3(v) => v.full.failure,
        }
    }

    /// The return-data bytes of the full-batch result.
    pub open spec fn return_data(self) -> Vec<u8> {
        match self {
            VersionedBlockResult::V1(v) => v.full.return_data,
            VersionedBlockResult::V2(v) => v.full.return_data,
            VersionedBlockResult::V3(v) => v.full.return_data,
        }
    }

    /// The cumulative events of the full-batch result.
    pub open spec fn full_events(self) -> Vec<Event> {
        match self {
            VersionedBlockResult::V1(v) => v.full.events,
            VersionedBlockResult::V2(v) => v.full.events,
            VersionedBlockResult::V3(v) => v.full.events,
        }
    }

    /// The cumulative cross-layer messages of the full-batch result.
    pub open spec fn full_l2_to_l1_logs(self) -> Vec<L2ToL1Log> {
        match self {
            VersionedBlockResult::V1(v) => v.full.l2_to_l1_logs,
            VersionedBlockResult::V2(v) => v.full.l2_to_l1_logs,
            VersionedBlockResult::V3(v) => v.full.l2_to_l1_logs,
        }
    }

    /// The cumulative storage accesses of the full-batch result.
    pub open spec fn full_storage_log_queries(self) -> Vec<StorageLogQuery> {
        match self {
            VersionedBlockResult::V1(v) => v.full.storage_log_queries,
            VersionedBlockResult::V2(v) => v.full.storage_log_queries,
            VersionedBlockResult::V3(v) => v.full.storage_log_queries,
        }
    }

    /// The contract-code hashes touched by the batch.
    pub open spec fn used_contract_hashes(self) -> Vec<u64> {
        match self {
            VersionedBlockResult::V1(v) => v.full.used_contract_hashes,
            VersionedBlockResult::V2(v) => v.full.used_contract_hashes,
            VersionedBlockResult::V3(v) => v.full.used_contract_hashes,
        }
    }

    /// The cumulative log-query count of the full-batch result.
    pub open spec fn full_total_log_queries(self) -> usize {
        match self {
            VersionedBlockResult::V1(v) => v.full.total_log_queries,
            VersionedBlockResult::V2(v) => v.full.total_log_queries,
            VersionedBlockResult::V3(v) => v.full.total_log_queries,
        }
    }

    /// The cycles consumed by the full batch.
    pub open spec fn full_cycles_used(self) -> u32 {
        match self {
            VersionedBlockResult::V1(v) => v.full.cycles_used,
            VersionedBlockResult::V2(v) => v.full.cycles_used,
            VersionedBlockResult::V3(v) => v.full.cycles_used,
        }
    }

    /// The distinct contracts touched, as counted by the full-batch result.
    pub open spec fn full_contracts_used(self) -> usize {
        match self {
            VersionedBlockResult::V1(v) => v.full.contracts_used,
            VersionedBlockResult::V2(v) => v.full.contracts_used,
            VersionedBlockResult::V3(v) => v.full.contracts_used,
        }
    }

    /// The total gas consumed by the full batch.
    pub open spec fn gas_used(self) -> u64 {
        match self {
            VersionedBlockResult::V1(v) => v.full.gas_used,
            VersionedBlockResult::V2(v) => v.full.gas_used,
            VersionedBlockResult::V3(v) => v.full.gas_used,
        }
    }
}

} // verus!
