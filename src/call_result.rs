//! The outcome of one call executed against one block.

use vstd::prelude::*;

use alloy_primitives::{Bytes, B256};
use alloy_rpc_types_eth::Log;

use crate::alloy_types::bytes_content;

verus! {

/// Extended call result: execution status, gas, and either logs and return
/// data or a revert reason.
///
/// Status is set by the two constructors, never by the caller:
/// [`LogOrRevert::new_success`] gives no revert reason and
/// [`LogOrRevert::new_failure`] gives no return data. A value assembled
/// field by field (for instance, decoded from the wire) need not meet `wf`.
#[derive(Debug, Clone, PartialEq, Eq)]
pub struct LogOrRevert {
    /// Block number where the call was executed.
    pub block_number: u64,
    /// Block hash where the call was executed.
    pub block_hash: B256,
    /// Execution status (1 = success, 0 = failure).
    pub status: u64,
    /// Gas used by the call.
    pub used_gas: u64,
    /// Logs generated during execution, when collected.
    pub logs: Option<Vec<Log>>,
    /// Return data from the call.
    pub returns: Bytes,
    /// Revert reason, when the call failed and one could be derived.
    pub revert_error: Option<String>,
}

impl LogOrRevert {
    /// A successful outcome: status 1 and no revert reason.
    pub open spec fn is_success_shape(self) -> bool {
        self.status == 1 && self.revert_error is None
    }

    /// A failed outcome: status 0 and empty return data.
    pub open spec fn is_failure_shape(self) -> bool {
        self.status == 0 && bytes_content(self.returns) == Seq::<u8>::empty()
    }

    /// The shape that every constructed result has: status is 0 or 1, a
    /// success has no revert reason, and a failure has no return data.
    pub open spec fn wf(self) -> bool {
        self.is_success_shape() || self.is_failure_shape()
    }

    /// Creates a new successful call result.
    pub fn new_success(
        block_number: u64,
        block_hash: B256,
        used_gas: u64,
        logs: Vec<Log>,
        return_data: Bytes,
    ) -> (r: Self)
        ensures
            r.block_number == block_number,
            r.block_hash == block_hash,
            r.status == 1,
            r.used_gas == used_gas,
            r.logs == Some(logs),
            r.returns == return_data,
            r.revert_error is None,
            r.is_success_shape(),
            r.wf(),
    {
        LogOrRevert {
            block_number,
            block_hash,
            status: 1,
            used_gas,
            logs: Some(logs),
            returns: return_data,
            revert_error: None,
        }
    }

    /// Creates a new failed call result.
    pub fn new_failure(
        block_number: u64,
        block_hash: B256,
        used_gas: u64,
        logs: Option<Vec<Log>>,
        revert_error: Option<String>,
    ) -> (r: Self)
        ensures
            r.block_number == block_number,
            r.block_hash == block_hash,
            r.status == 0,
            r.used_gas == used_gas,
            r.logs == logs,
            bytes_content(r.returns) == Seq::<u8>::empty(),
            r.revert_error == revert_error,
            r.is_failure_shape(),
            r.wf(),
    {
        LogOrRevert {
            block_number,
            block_hash,
            status: 0,
            used_gas,
            logs,
            returns: Bytes::new(),
            revert_error,
        }
    }
}

} // verus!
