//! The closed set of operations that the bridge dispatches to the plugin.

use vstd::prelude::*;

verus! {

/// One of the operations the bridge serves.
#[derive(Clone, Copy, Debug, PartialEq, Eq, Structural)]
pub enum Method {
    Exec,
    Call,
    GetTransactionReceipt,
    GetCode,
    GetBalance,
    GetTransactionCount,
    GetAbi,
    EstimateQuota,
    GetReceiptProof,
    GetRootsInfo,
    GetStorageAt,
}

impl Method {
    /// The name under which the plugin exports the operation.
    pub open spec fn name_spec(self) -> Seq<char> {
        match self {
            Method::Exec => "exec"@,
            Method::Call => "call"@,
            Method::GetTransactionReceipt => "get_transaction_receipt"@,
            Method::GetCode => "get_code"@,
            Method::GetBalance => "get_balance"@,
            Method::GetTransactionCount => "get_transaction_count"@,
            Method::GetAbi => "get_abi"@,
            Method::EstimateQuota => "estimate_quota"@,
            Method::GetReceiptProof => "get_receipt_proof"@,
            Method::GetRootsInfo => "get_roots_info"@,
            Method::GetStorageAt => "get_storage_at"@,
        }
    }

    /// Returns the name under which the plugin exports the operation.
    pub fn name(self) -> (name: &'static str)
        ensures
            name@ == self.name_spec(),
    {
        match self {
            Method::Exec => "exec",
            Method::Call => "call",
            Method::GetTransactionReceipt => "get_transaction_receipt",
            Method::GetCode => "get_code",
            Method::GetBalance => "get_balance",
            Method::GetTransactionCount => "get_transaction_count",
            Method::GetAbi => "get_abi",
            Method::EstimateQuota => "estimate_quota",
            Method::GetReceiptProof => "get_receipt_proof",
            Method::GetRootsInfo => "get_roots_info",
            Method::GetStorageAt => "get_storage_at",
        }
    }
}

} // verus!
