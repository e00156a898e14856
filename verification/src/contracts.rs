//! The answer that the contracts runtime API gives for a contract call.

use crate::transaction::Runtime;
use vstd::prelude::*;

verus! {

/// What a contract execution that ran to its end returned.
#[derive(Clone, Debug, PartialEq, Eq)]
pub struct ExecReturnValue {
    /// The status code that the contract returned.
    pub status: u8,
    /// The output that the contract returned.
    pub data: Vec<u8>,
}

/// The answer to a contract call made through the runtime API.
#[derive(Clone, Debug, PartialEq, Eq)]
pub enum ContractExecResult {
    /// The call ran; the contract returned `status` and `data`.
    Success { status: u8, data: Vec<u8> },
    /// The call failed.
    Error,
}

impl Runtime {
    /// The answer to a contract call whose execution gave `exec_result`: the
    /// contract's status and output where it ran, and an error, without
    /// further detail, where it failed.
    pub fn contract_call_result<E>(exec_result: Result<ExecReturnValue, E>) -> (answer: ContractExecResult)
        ensures
            exec_result matches Ok(value) ==> answer matches ContractExecResult::Success { status, data }
                && status == value.status && data@ == value.data@,
            exec_result is Err ==> answer is Error,
    {
        match exec_result {
            Ok(value) => ContractExecResult::Success { status: value.status, data: value.data },
            Err(_) => ContractExecResult::Error,
        }
    }
}

} // verus!
