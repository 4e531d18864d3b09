//! A typed request or response together with the method it belongs to.

use crate::message::blockchain::Block;
use crate::message::blockchain::BlockView;
use crate::message::common;
use crate::message::common::HashResponse;
use crate::message::common::HashResponseView;
use crate::message::evm::AccountQueryView;
use crate::message::evm::Balance;
use crate::message::evm::BlockNumber;
use crate::message::evm::ByteAbi;
use crate::message::evm::ByteCode;
use crate::message::evm::ByteQuota;
use crate::message::evm::GetAbiRequest;
use crate::message::evm::GetBalanceRequest;
use crate::message::evm::GetCodeRequest;
use crate::message::evm::GetStorageAtRequest;
use crate::message::evm::GetTransactionCountRequest;
use crate::message::evm::LableView;
use crate::message::evm::Nonce;
use crate::message::evm::Receipt;
use crate::message::evm::ReceiptProof;
use crate::message::evm::ReceiptProofView;
use crate::message::evm::ReceiptView;
use crate::message::evm::RootsInfo;
use crate::message::evm::RootsInfoView;
use crate::message::evm::StorageQueryView;
use crate::message::executor::CallRequest;
use crate::message::executor::CallRequestView;
use crate::message::executor::CallResponse;
use crate::method::Method;
use vstd::prelude::*;

verus! {

/// The request of one call of the service.
#[derive(Clone, Debug, PartialEq)]
pub enum Request {
    Exec(Block),
    Call(CallRequest),
    GetTransactionReceipt(common::Hash),
    GetCode(GetCodeRequest),
    GetBalance(GetBalanceRequest),
    GetTransactionCount(GetTransactionCountRequest),
    GetAbi(GetAbiRequest),
    EstimateQuota(CallRequest),
    GetReceiptProof(common::Hash),
    GetRootsInfo(BlockNumber),
    GetStorageAt(GetStorageAtRequest),
}

/// The view of a [`Request`].
pub ghost enum RequestView {
    Exec(BlockView),
    Call(CallRequestView),
    GetTransactionReceipt(Seq<u8>),
    GetCode(AccountQueryView),
    GetBalance(AccountQueryView),
    GetTransactionCount(AccountQueryView),
    GetAbi(AccountQueryView),
    EstimateQuota(CallRequestView),
    GetReceiptProof(Seq<u8>),
    GetRootsInfo(Option<LableView>),
    GetStorageAt(StorageQueryView),
}

impl RequestView {
    /// The method that the request is for.
    pub open spec fn method(self) -> Method {
        match self {
            RequestView::Exec(_) => Method::Exec,
            RequestView::Call(_) => Method::Call,
            RequestView::GetTransactionReceipt(_) => Method::GetTransactionReceipt,
            RequestView::GetCode(_) => Method::GetCode,
            RequestView::GetBalance(_) => Method::GetBalance,
            RequestView::GetTransactionCount(_) => Method::GetTransactionCount,
            RequestView::GetAbi(_) => Method::GetAbi,
            RequestView::EstimateQuota(_) => Method::EstimateQuota,
            RequestView::GetReceiptProof(_) => Method::GetReceiptProof,
            RequestView::GetRootsInfo(_) => Method::GetRootsInfo,
            RequestView::GetStorageAt(_) => Method::GetStorageAt,
        }
    }
}

impl View for Request {
    type V = RequestView;

    open spec fn view(&self) -> RequestView {
        match self {
            Request::Exec(block) => RequestView::Exec(block@),
            Request::Call(call) => RequestView::Call(call@),
            Request::GetTransactionReceipt(hash) => RequestView::GetTransactionReceipt(hash@),
            Request::GetCode(query) => RequestView::GetCode(query@),
            Request::GetBalance(query) => RequestView::GetBalance(query@),
            Request::GetTransactionCount(query) => RequestView::GetTransactionCount(query@),
            Request::GetAbi(query) => RequestView::GetAbi(query@),
            Request::EstimateQuota(call) => RequestView::EstimateQuota(call@),
            Request::GetReceiptProof(hash) => RequestView::GetReceiptProof(hash@),
            Request::GetRootsInfo(block_number) => RequestView::GetRootsInfo(block_number@),
            Request::GetStorageAt(query) => RequestView::GetStorageAt(query@),
        }
    }
}

impl Request {
    /// Returns the method that the request is for.
    pub fn method(&self) -> (method: Method)
        ensures
            method == self@.method(),
    {
        match self {
            Request::Exec(_) => Method::Exec,
            Request::Call(_) => Method::Call,
            Request::GetTransactionReceipt(_) => Method::GetTransactionReceipt,
            Request::GetCode(_) => Method::GetCode,
            Request::GetBalance(_) => Method::GetBalance,
            Request::GetTransactionCount(_) => Method::GetTransactionCount,
            Request::GetAbi(_) => Method::GetAbi,
            Request::EstimateQuota(_) => Method::EstimateQuota,
            Request::GetReceiptProof(_) => Method::GetReceiptProof,
            Request::GetRootsInfo(_) => Method::GetRootsInfo,
            Request::GetStorageAt(_) => Method::GetStorageAt,
        }
    }
}

/// The response of one call of the service.
#[derive(Clone, Debug, PartialEq, Eq)]
pub enum Response {
    Exec(HashResponse),
    Call(CallResponse),
    GetTransactionReceipt(Receipt),
    GetCode(ByteCode),
    GetBalance(Balance),
    GetTransactionCount(Nonce),
    GetAbi(ByteAbi),
    EstimateQuota(ByteQuota),
    GetReceiptProof(ReceiptProof),
    GetRootsInfo(RootsInfo),
    GetStorageAt(common::Hash),
}

/// The view of a [`Response`].
pub ghost enum ResponseView {
    Exec(HashResponseView),
    Call(Seq<u8>),
    GetTransactionReceipt(ReceiptView),
    GetCode(Seq<u8>),
    GetBalance(Seq<u8>),
    GetTransactionCount(Seq<u8>),
    GetAbi(Seq<u8>),
    EstimateQuota(Seq<u8>),
    GetReceiptProof(ReceiptProofView),
    GetRootsInfo(RootsInfoView),
    GetStorageAt(Seq<u8>),
}

impl ResponseView {
    /// The method that the response answers.
    pub open spec fn method(self) -> Method {
        match self {
            ResponseView::Exec(_) => Method::Exec,
            ResponseView::Call(_) => Method::Call,
            ResponseView::GetTransactionReceipt(_) => Method::GetTransactionReceipt,
            ResponseView::GetCode(_) => Method::GetCode,
            ResponseView::GetBalance(_) => Method::GetBalance,
            ResponseView::GetTransactionCount(_) => Method::GetTransactionCount,
            ResponseView::GetAbi(_) => Method::GetAbi,
            ResponseView::EstimateQuota(_) => Method::EstimateQuota,
            ResponseView::GetReceiptProof(_) => Method::GetReceiptProof,
            ResponseView::GetRootsInfo(_) => Method::GetRootsInfo,
            ResponseView::GetStorageAt(_) => Method::GetStorageAt,
        }
    }
}

impl View for Response {
    type V = ResponseView;

    open spec fn view(&self) -> ResponseView {
        match self {
            Response::Exec(response) => ResponseView::Exec(response@),
            Response::Call(response) => ResponseView::Call(response@),
            Response::GetTransactionReceipt(receipt) => ResponseView::GetTransactionReceipt(
                receipt@,
            ),
            Response::GetCode(code) => ResponseView::GetCode(code@),
            Response::GetBalance(balance) => ResponseView::GetBalance(balance@),
            Response::GetTransactionCount(nonce) => ResponseView::GetTransactionCount(nonce@),
            Response::GetAbi(abi) => ResponseView::GetAbi(abi@),
            Response::EstimateQuota(quota) => ResponseView::EstimateQuota(quota@),
            Response::GetReceiptProof(proof) => ResponseView::GetReceiptProof(proof@),
            Response::GetRootsInfo(roots) => ResponseView::GetRootsInfo(roots@),
            Response::GetStorageAt(hash) => ResponseView::GetStorageAt(hash@),
        }
    }
}

impl Response {
    /// Returns the method that the response answers.
    pub fn method(&self) -> (method: Method)
        ensures
            method == self@.method(),
    {
        match self {
            Response::Exec(_) => Method::Exec,
            Response::Call(_) => Method::Call,
            Response::GetTransactionReceipt(_) => Method::GetTransactionReceipt,
            Response::GetCode(_) => Method::GetCode,
            Response::GetBalance(_) => Method::GetBalance,
            Response::GetTransactionCount(_) => Method::GetTransactionCount,
            Response::GetAbi(_) => Method::GetAbi,
            Response::EstimateQuota(_) => Method::EstimateQuota,
            Response::GetReceiptProof(_) => Method::GetReceiptProof,
            Response::GetRootsInfo(_) => Method::GetRootsInfo,
            Response::GetStorageAt(_) => Method::GetStorageAt,
        }
    }
}

} // verus!
