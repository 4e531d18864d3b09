//! Messages of the query group.

use crate::message::common;
use vstd::prelude::*;

verus! {

/// How a request names a block: by height, by tag or by hash.
#[derive(Clone, Debug, PartialEq, Eq)]
pub enum Lable {
    Height(u64),
    Tag(String),
    Hash(Vec<u8>),
}

/// The view of a [`Lable`].
pub ghost enum LableView {
    Height(u64),
    Tag(Seq<char>),
    Hash(Seq<u8>),
}

impl View for Lable {
    type V = LableView;

    open spec fn view(&self) -> LableView {
        match self {
            Lable::Height(height) => LableView::Height(*height),
            Lable::Tag(tag) => LableView::Tag(tag@),
            Lable::Hash(hash) => LableView::Hash(hash@),
        }
    }
}

/// A block reference. The reference itself may be left open.
#[derive(Clone, Debug, PartialEq, Eq)]
pub struct BlockNumber {
    pub lable: Option<Lable>,
}

impl View for BlockNumber {
    type V = Option<LableView>;

    open spec fn view(&self) -> Option<LableView> {
        match self.lable {
            Some(lable) => Some(lable@),
            None => None,
        }
    }
}

/// The view shared by the four requests that name an account and a block.
pub ghost struct AccountQueryView {
    pub address: Option<Seq<u8>>,
    pub block_number: Option<Option<LableView>>,
}

/// The view of an optional address.
pub open spec fn address_view(address: Option<common::Address>) -> Option<Seq<u8>> {
    match address {
        Some(address) => Some(address@),
        None => None,
    }
}

/// The view of an optional hash.
pub open spec fn hash_view(hash: Option<common::Hash>) -> Option<Seq<u8>> {
    match hash {
        Some(hash) => Some(hash@),
        None => None,
    }
}

/// The view of an optional block reference.
pub open spec fn block_number_view(block_number: Option<BlockNumber>) -> Option<Option<LableView>> {
    match block_number {
        Some(block_number) => Some(block_number@),
        None => None,
    }
}

/// Asks for the code of a contract.
#[derive(Clone, Debug, PartialEq, Eq)]
pub struct GetCodeRequest {
    pub address: Option<common::Address>,
    pub block_number: Option<BlockNumber>,
}

impl View for GetCodeRequest {
    type V = AccountQueryView;

    open spec fn view(&self) -> AccountQueryView {
        AccountQueryView {
            address: address_view(self.address),
            block_number: block_number_view(self.block_number),
        }
    }
}

/// Asks for the balance of an account.
#[derive(Clone, Debug, PartialEq, Eq)]
pub struct GetBalanceRequest {
    pub address: Option<common::Address>,
    pub block_number: Option<BlockNumber>,
}

impl View for GetBalanceRequest {
    type V = AccountQueryView;

    open spec fn view(&self) -> AccountQueryView {
        AccountQueryView {
            address: address_view(self.address),
            block_number: block_number_view(self.block_number),
        }
    }
}

/// Asks for the number of transactions an account has sent.
#[derive(Clone, Debug, PartialEq, Eq)]
pub struct GetTransactionCountRequest {
    pub address: Option<common::Address>,
    pub block_number: Option<BlockNumber>,
}

impl View for GetTransactionCountRequest {
    type V = AccountQueryView;

    open spec fn view(&self) -> AccountQueryView {
        AccountQueryView {
            address: address_view(self.address),
            block_number: block_number_view(self.block_number),
        }
    }
}

/// Asks for the ABI of a contract.
#[derive(Clone, Debug, PartialEq, Eq)]
pub struct GetAbiRequest {
    pub address: Option<common::Address>,
    pub block_number: Option<BlockNumber>,
}

impl View for GetAbiRequest {
    type V = AccountQueryView;

    open spec fn view(&self) -> AccountQueryView {
        AccountQueryView {
            address: address_view(self.address),
            block_number: block_number_view(self.block_number),
        }
    }
}

/// Asks for the content of one storage slot of a contract.
#[derive(Clone, Debug, PartialEq, Eq)]
pub struct GetStorageAtRequest {
    pub address: Option<common::Address>,
    pub position: Option<common::Hash>,
    pub block_number: Option<BlockNumber>,
}

/// The view of a [`GetStorageAtRequest`].
pub ghost struct StorageQueryView {
    pub address: Option<Seq<u8>>,
    pub position: Option<Seq<u8>>,
    pub block_number: Option<Option<LableView>>,
}

impl View for GetStorageAtRequest {
    type V = StorageQueryView;

    open spec fn view(&self) -> StorageQueryView {
        StorageQueryView {
            address: address_view(self.address),
            position: hash_view(self.position),
            block_number: block_number_view(self.block_number),
        }
    }
}

/// The code of a contract.
#[derive(Clone, Debug, PartialEq, Eq)]
pub struct ByteCode {
    pub byte_code: Vec<u8>,
}

impl View for ByteCode {
    type V = Seq<u8>;

    open spec fn view(&self) -> Seq<u8> {
        self.byte_code@
    }
}

/// The balance of an account.
#[derive(Clone, Debug, PartialEq, Eq)]
pub struct Balance {
    pub value: Vec<u8>,
}

impl View for Balance {
    type V = Seq<u8>;

    open spec fn view(&self) -> Seq<u8> {
        self.value@
    }
}

/// The number of transactions an account has sent.
#[derive(Clone, Debug, PartialEq, Eq)]
pub struct Nonce {
    pub nonce: Vec<u8>,
}

impl View for Nonce {
    type V = Seq<u8>;

    open spec fn view(&self) -> Seq<u8> {
        self.nonce@
    }
}

/// The ABI of a contract.
#[derive(Clone, Debug, PartialEq, Eq)]
pub struct ByteAbi {
    pub bytes_abi: Vec<u8>,
}

impl View for ByteAbi {
    type V = Seq<u8>;

    open spec fn view(&self) -> Seq<u8> {
        self.bytes_abi@
    }
}

/// The quota a call is estimated to use.
#[derive(Clone, Debug, PartialEq, Eq)]
pub struct ByteQuota {
    pub bytes_quota: Vec<u8>,
}

impl View for ByteQuota {
    type V = Seq<u8>;

    open spec fn view(&self) -> Seq<u8> {
        self.bytes_quota@
    }
}

/// The state and receipt roots at one height.
#[derive(Clone, Debug, PartialEq, Eq)]
pub struct RootsInfo {
    pub height: u64,
    pub state_root: Vec<u8>,
    pub receipt_root: Vec<u8>,
}

/// The view of a [`RootsInfo`].
pub ghost struct RootsInfoView {
    pub height: u64,
    pub state_root: Seq<u8>,
    pub receipt_root: Seq<u8>,
}

impl View for RootsInfo {
    type V = RootsInfoView;

    open spec fn view(&self) -> RootsInfoView {
        RootsInfoView {
            height: self.height,
            state_root: self.state_root@,
            receipt_root: self.receipt_root@,
        }
    }
}

/// A receipt with the proof that it belongs to its block.
#[derive(Clone, Debug, PartialEq, Eq)]
pub struct ReceiptProof {
    pub receipt: Vec<u8>,
    pub receipt_proof: Vec<u8>,
    pub roots_info: Option<RootsInfo>,
}

/// The view of a [`ReceiptProof`].
pub ghost struct ReceiptProofView {
    pub receipt: Seq<u8>,
    pub receipt_proof: Seq<u8>,
    pub roots_info: Option<RootsInfoView>,
}

impl View for ReceiptProof {
    type V = ReceiptProofView;

    open spec fn view(&self) -> ReceiptProofView {
        ReceiptProofView {
            receipt: self.receipt@,
            receipt_proof: self.receipt_proof@,
            roots_info: match self.roots_info {
                Some(roots_info) => Some(roots_info@),
                None => None,
            },
        }
    }
}

/// One log entry of a receipt.
#[derive(Clone, Debug, PartialEq, Eq)]
pub struct Log {
    pub address: Vec<u8>,
    pub topics: Vec<Vec<u8>>,
    pub data: Vec<u8>,
    pub block_hash: Vec<u8>,
    pub block_number: u64,
    pub transaction_hash: Vec<u8>,
    pub transaction_index: u64,
    pub log_index: u64,
    pub transaction_log_index: u64,
}

/// The view of a [`Log`].
pub ghost struct LogView {
    pub address: Seq<u8>,
    pub topics: Seq<Seq<u8>>,
    pub data: Seq<u8>,
    pub block_hash: Seq<u8>,
    pub block_number: u64,
    pub transaction_hash: Seq<u8>,
    pub transaction_index: u64,
    pub log_index: u64,
    pub transaction_log_index: u64,
}

impl View for Log {
    type V = LogView;

    open spec fn view(&self) -> LogView {
        LogView {
            address: self.address@,
            topics: self.topics.deep_view(),
            data: self.data@,
            block_hash: self.block_hash@,
            block_number: self.block_number,
            transaction_hash: self.transaction_hash@,
            transaction_index: self.transaction_index,
            log_index: self.log_index,
            transaction_log_index: self.transaction_log_index,
        }
    }
}

/// The receipt of an executed transaction.
#[derive(Clone, Debug, PartialEq, Eq)]
pub struct Receipt {
    pub transaction_hash: Vec<u8>,
    pub transaction_index: u64,
    pub block_hash: Vec<u8>,
    pub block_number: u64,
    pub cumulative_quota_used: Vec<u8>,
    pub quota_used: Vec<u8>,
    pub contract_address: Vec<u8>,
    pub logs: Vec<Log>,
    pub state_root: Vec<u8>,
    pub logs_bloom: Vec<u8>,
    pub error_message: String,
}

/// The view of a [`Receipt`].
pub ghost struct ReceiptView {
    pub transaction_hash: Seq<u8>,
    pub transaction_index: u64,
    pub block_hash: Seq<u8>,
    pub block_number: u64,
    pub cumulative_quota_used: Seq<u8>,
    pub quota_used: Seq<u8>,
    pub contract_address: Seq<u8>,
    pub logs: Seq<LogView>,
    pub state_root: Seq<u8>,
    pub logs_bloom: Seq<u8>,
    pub error_message: Seq<char>,
}

impl View for Receipt {
    type V = ReceiptView;

    open spec fn view(&self) -> ReceiptView {
        ReceiptView {
            transaction_hash: self.transaction_hash@,
            transaction_index: self.transaction_index,
            block_hash: self.block_hash@,
            block_number: self.block_number,
            cumulative_quota_used: self.cumulative_quota_used@,
            quota_used: self.quota_used@,
            contract_address: self.contract_address@,
            logs: self.logs@.map_values(|log: Log| log@),
            state_root: self.state_root@,
            logs_bloom: self.logs_bloom@,
            error_message: self.error_message@,
        }
    }
}

} // verus!
