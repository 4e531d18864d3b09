//! The message codec: typed requests to bytes, bytes to typed responses.
//!
//! The wire format is that of the protocol's own message types. The encoding
//! and the decoding are done by `prost` on the types of `cita_cloud_proto`;
//! the functions at the end of this file call them and are trusted. Their
//! results are named by the functions without a body below: `encoded_*` is
//! the canonical encoding of a request, `decoded_*` is what a byte sequence
//! parses to as a response, if it parses at all.

use cita_cloud_proto::blockchain as wire_blockchain;
use cita_cloud_proto::common as wire_common;
use cita_cloud_proto::evm as wire_evm;
use cita_cloud_proto::executor as wire_executor;
use crate::error::ServiceError;
use crate::message::blockchain::Block;
use crate::message::blockchain::BlockView;
use crate::message::common;
use crate::message::common::HashResponse;
use crate::message::common::HashResponseView;
use crate::message::common::StatusCode;
use crate::message::evm::AccountQueryView;
use crate::message::evm::Balance;
use crate::message::evm::BlockNumber;
use crate::message::evm::ByteAbi;
use crate::message::evm::ByteCode;
use crate::message::evm::ByteQuota;
use crate::message::evm::GetAbiRequest;
use crate::message::evm::GetBalanceRequest;
use crate::message::evm::GetCodeRequest;
use crate::message::evm::GetStorageAtRequest;
use crate::message::evm::GetTransactionCountRequest;
use crate::message::evm::Lable;
use crate::message::evm::LableView;
use crate::message::evm::Log;
use crate::message::evm::Nonce;
use crate::message::evm::Receipt;
use crate::message::evm::ReceiptProof;
use crate::message::evm::ReceiptProofView;
use crate::message::evm::ReceiptView;
use crate::message::evm::RootsInfo;
use crate::message::evm::RootsInfoView;
use crate::message::evm::StorageQueryView;
use crate::message::executor::CallRequest;
use crate::message::executor::CallRequestView;
use crate::message::executor::CallResponse;
use crate::method::Method;
use crate::request::Request;
use crate::request::RequestView;
use crate::request::Response;
use crate::request::ResponseView;
use vstd::prelude::*;

verus! {

/// The error with which `prost` refuses bytes that are no valid message.
#[verifier::external_type_specification]
#[verifier::external_body]
pub struct ExDecodeError(prost::DecodeError);

/// The encoding of a block: the bytes that `prost::Message::encode_to_vec`
/// returns for the protocol's `Block` with these fields.
pub uninterp spec fn encoded_block(block: BlockView) -> Seq<u8>;

/// The encoding of a call request: the bytes that
/// `prost::Message::encode_to_vec` returns for the protocol's `CallRequest`
/// with these fields.
pub uninterp spec fn encoded_call_request(call: CallRequestView) -> Seq<u8>;

/// The encoding of a hash: the bytes that `prost::Message::encode_to_vec`
/// returns for the protocol's `Hash` with these fields.
pub uninterp spec fn encoded_hash(hash: Seq<u8>) -> Seq<u8>;

/// The encoding of a request for the code of a contract: the bytes that
/// `prost::Message::encode_to_vec` returns for the protocol's
/// `GetCodeRequest` with these fields.
pub uninterp spec fn encoded_get_code_request(query: AccountQueryView) -> Seq<u8>;

/// The encoding of a request for the balance of an account: the bytes that
/// `prost::Message::encode_to_vec` returns for the protocol's
/// `GetBalanceRequest` with these fields.
pub uninterp spec fn encoded_get_balance_request(query: AccountQueryView) -> Seq<u8>;

/// The encoding of a request for the transaction count of an account: the
/// bytes that `prost::Message::encode_to_vec` returns for the protocol's
/// `GetTransactionCountRequest` with these fields.
pub uninterp spec fn encoded_get_transaction_count_request(query: AccountQueryView) -> Seq<u8>;

/// The encoding of a request for the ABI of a contract: the bytes that
/// `prost::Message::encode_to_vec` returns for the protocol's
/// `GetAbiRequest` with these fields.
pub uninterp spec fn encoded_get_abi_request(query: AccountQueryView) -> Seq<u8>;

/// The encoding of a block reference: the bytes that
/// `prost::Message::encode_to_vec` returns for the protocol's `BlockNumber`
/// with these fields.
pub uninterp spec fn encoded_block_number(block_number: Option<LableView>) -> Seq<u8>;

/// The encoding of a request for a storage slot: the bytes that
/// `prost::Message::encode_to_vec` returns for the protocol's
/// `GetStorageAtRequest` with these fields.
pub uninterp spec fn encoded_get_storage_at_request(query: StorageQueryView) -> Seq<u8>;

/// What `bytes` parse to as the answer to a block execution: the fields of
/// the protocol's `HashResponse` that `prost::Message::decode` returns for
/// them, or `None` where it returns an error.
pub uninterp spec fn decoded_hash_response(bytes: Seq<u8>) -> Option<HashResponseView>;

/// What `bytes` parse to as the value of a contract call: the fields of the
/// protocol's `CallResponse` that `prost::Message::decode` returns for
/// them, or `None` where it returns an error.
pub uninterp spec fn decoded_call_response(bytes: Seq<u8>) -> Option<Seq<u8>>;

/// What `bytes` parse to as a receipt: the fields of the protocol's
/// `Receipt` that `prost::Message::decode` returns for them, or `None`
/// where it returns an error.
pub uninterp spec fn decoded_receipt(bytes: Seq<u8>) -> Option<ReceiptView>;

/// What `bytes` parse to as contract code: the fields of the protocol's
/// `ByteCode` that `prost::Message::decode` returns for them, or `None`
/// where it returns an error.
pub uninterp spec fn decoded_byte_code(bytes: Seq<u8>) -> Option<Seq<u8>>;

/// What `bytes` parse to as a balance: the fields of the protocol's
/// `Balance` that `prost::Message::decode` returns for them, or `None`
/// where it returns an error.
pub uninterp spec fn decoded_balance(bytes: Seq<u8>) -> Option<Seq<u8>>;

/// What `bytes` parse to as a transaction count: the fields of the
/// protocol's `Nonce` that `prost::Message::decode` returns for them, or
/// `None` where it returns an error.
pub uninterp spec fn decoded_nonce(bytes: Seq<u8>) -> Option<Seq<u8>>;

/// What `bytes` parse to as a contract ABI: the fields of the protocol's
/// `ByteAbi` that `prost::Message::decode` returns for them, or `None`
/// where it returns an error.
pub uninterp spec fn decoded_byte_abi(bytes: Seq<u8>) -> Option<Seq<u8>>;

/// What `bytes` parse to as a quota estimate: the fields of the protocol's
/// `ByteQuota` that `prost::Message::decode` returns for them, or `None`
/// where it returns an error.
pub uninterp spec fn decoded_byte_quota(bytes: Seq<u8>) -> Option<Seq<u8>>;

/// What `bytes` parse to as a receipt proof: the fields of the protocol's
/// `ReceiptProof` that `prost::Message::decode` returns for them, or `None`
/// where it returns an error.
pub uninterp spec fn decoded_receipt_proof(bytes: Seq<u8>) -> Option<ReceiptProofView>;

/// What `bytes` parse to as roots information: the fields of the protocol's
/// `RootsInfo` that `prost::Message::decode` returns for them, or `None`
/// where it returns an error.
pub uninterp spec fn decoded_roots_info(bytes: Seq<u8>) -> Option<RootsInfoView>;

/// What `bytes` parse to as a hash: the fields of the protocol's `Hash`
/// that `prost::Message::decode` returns for them, or `None` where it
/// returns an error.
pub uninterp spec fn decoded_hash(bytes: Seq<u8>) -> Option<Seq<u8>>;

/// The binary envelope of a request: the encoding of its payload.
pub open spec fn encoded(request: RequestView) -> Seq<u8> {
    match request {
        RequestView::Exec(block) => encoded_block(block),
        RequestView::Call(call) => encoded_call_request(call),
        RequestView::GetTransactionReceipt(hash) => encoded_hash(hash),
        RequestView::GetCode(query) => encoded_get_code_request(query),
        RequestView::GetBalance(query) => encoded_get_balance_request(query),
        RequestView::GetTransactionCount(query) => encoded_get_transaction_count_request(query),
        RequestView::GetAbi(query) => encoded_get_abi_request(query),
        RequestView::EstimateQuota(call) => encoded_call_request(call),
        RequestView::GetReceiptProof(hash) => encoded_hash(hash),
        RequestView::GetRootsInfo(block_number) => encoded_block_number(block_number),
        RequestView::GetStorageAt(query) => encoded_get_storage_at_request(query),
    }
}

/// The response of `method` that `bytes` parse to, or `None` where they are
/// no encoding of such a response.
pub open spec fn decoded(method: Method, bytes: Seq<u8>) -> Option<ResponseView> {
    match method {
        Method::Exec => match decoded_hash_response(bytes) {
            Some(response) => Some(ResponseView::Exec(response)),
            None => None,
        },
        Method::Call => match decoded_call_response(bytes) {
            Some(response) => Some(ResponseView::Call(response)),
            None => None,
        },
        Method::GetTransactionReceipt => match decoded_receipt(bytes) {
            Some(receipt) => Some(ResponseView::GetTransactionReceipt(receipt)),
            None => None,
        },
        Method::GetCode => match decoded_byte_code(bytes) {
            Some(code) => Some(ResponseView::GetCode(code)),
            None => None,
        },
        Method::GetBalance => match decoded_balance(bytes) {
            Some(balance) => Some(ResponseView::GetBalance(balance)),
            None => None,
        },
        Method::GetTransactionCount => match decoded_nonce(bytes) {
            Some(nonce) => Some(ResponseView::GetTransactionCount(nonce)),
            None => None,
        },
        Method::GetAbi => match decoded_byte_abi(bytes) {
            Some(abi) => Some(ResponseView::GetAbi(abi)),
            None => None,
        },
        Method::EstimateQuota => match decoded_byte_quota(bytes) {
            Some(quota) => Some(ResponseView::EstimateQuota(quota)),
            None => None,
        },
        Method::GetReceiptProof => match decoded_receipt_proof(bytes) {
            Some(proof) => Some(ResponseView::GetReceiptProof(proof)),
            None => None,
        },
        Method::GetRootsInfo => match decoded_roots_info(bytes) {
            Some(roots) => Some(ResponseView::GetRootsInfo(roots)),
            None => None,
        },
        Method::GetStorageAt => match decoded_hash(bytes) {
            Some(hash) => Some(ResponseView::GetStorageAt(hash)),
            None => None,
        },
    }
}

/// Encodes a request into its binary envelope. Total: every request has one.
pub fn encode(request: Request) -> (bytes: Vec<u8>)
    ensures
        bytes@ == encoded(request@),
{
    match request {
        Request::Exec(block) => encode_block(block),
        Request::Call(call) => encode_call_request(call),
        Request::GetTransactionReceipt(hash) => encode_hash(hash),
        Request::GetCode(query) => encode_get_code_request(query),
        Request::GetBalance(query) => encode_get_balance_request(query),
        Request::GetTransactionCount(query) => encode_get_transaction_count_request(query),
        Request::GetAbi(query) => encode_get_abi_request(query),
        Request::EstimateQuota(call) => encode_call_request(call),
        Request::GetReceiptProof(hash) => encode_hash(hash),
        Request::GetRootsInfo(block_number) => encode_block_number(block_number),
        Request::GetStorageAt(query) => encode_get_storage_at_request(query),
    }
}

/// Decodes the response of `method` from `bytes`. Fails with
/// `MalformedResponse` exactly when the bytes are no encoding of such a
/// response; no default value stands in for one.
pub fn decode(method: Method, bytes: &[u8]) -> (result: Result<Response, ServiceError>)
    ensures
        match result {
            Ok(response) => decoded(method, bytes@) == Some(response@),
            Err(error) => error == ServiceError::MalformedResponse && decoded(method, bytes@)
                is None,
        },
{
    match method {
        Method::Exec => match decode_hash_response(bytes) {
            Ok(response) => Ok(Response::Exec(response)),
            Err(_) => Err(ServiceError::MalformedResponse),
        },
        Method::Call => match decode_call_response(bytes) {
            Ok(response) => Ok(Response::Call(response)),
            Err(_) => Err(ServiceError::MalformedResponse),
        },
        Method::GetTransactionReceipt => match decode_receipt(bytes) {
            Ok(receipt) => Ok(Response::GetTransactionReceipt(receipt)),
            Err(_) => Err(ServiceError::MalformedResponse),
        },
        Method::GetCode => match decode_byte_code(bytes) {
            Ok(code) => Ok(Response::GetCode(code)),
            Err(_) => Err(ServiceError::MalformedResponse),
        },
        Method::GetBalance => match decode_balance(bytes) {
            Ok(balance) => Ok(Response::GetBalance(balance)),
            Err(_) => Err(ServiceError::MalformedResponse),
        },
        Method::GetTransactionCount => match decode_nonce(bytes) {
            Ok(nonce) => Ok(Response::GetTransactionCount(nonce)),
            Err(_) => Err(ServiceError::MalformedResponse),
        },
        Method::GetAbi => match decode_byte_abi(bytes) {
            Ok(abi) => Ok(Response::GetAbi(abi)),
            Err(_) => Err(ServiceError::MalformedResponse),
        },
        Method::EstimateQuota => match decode_byte_quota(bytes) {
            Ok(quota) => Ok(Response::EstimateQuota(quota)),
            Err(_) => Err(ServiceError::MalformedResponse),
        },
        Method::GetReceiptProof => match decode_receipt_proof(bytes) {
            Ok(proof) => Ok(Response::GetReceiptProof(proof)),
            Err(_) => Err(ServiceError::MalformedResponse),
        },
        Method::GetRootsInfo => match decode_roots_info(bytes) {
            Ok(roots) => Ok(Response::GetRootsInfo(roots)),
            Err(_) => Err(ServiceError::MalformedResponse),
        },
        Method::GetStorageAt => match decode_hash(bytes) {
            Ok(hash) => Ok(Response::GetStorageAt(hash)),
            Err(_) => Err(ServiceError::MalformedResponse),
        },
    }
}

/// Calls `prost::Message::encode_to_vec` on the protocol's `Block` with the
/// fields of `block`. Trusted: the bytes are the encoding that `prost` gives
/// this message, the same for the same fields.
#[verifier::external_body]
fn encode_block(block: Block) -> (bytes: Vec<u8>)
    ensures
        bytes@ == encoded_block(block@),
{
    prost::Message::encode_to_vec(&wire_blockchain::Block {
        version: block.version,
        header: block.header.map(|header| wire_blockchain::BlockHeader {
            prevhash: header.prevhash,
            timestamp: header.timestamp,
            height: header.height,
            transactions_root: header.transactions_root,
            proposer: header.proposer,
        }),
        body: block.body,
        proof: block.proof,
        state_root: block.state_root,
    })
}

/// Calls `prost::Message::encode_to_vec` on the protocol's `CallRequest` with
/// the fields of `call`. Trusted: the bytes are the encoding that `prost`
/// gives this message, the same for the same fields.
#[verifier::external_body]
fn encode_call_request(call: CallRequest) -> (bytes: Vec<u8>)
    ensures
        bytes@ == encoded_call_request(call@),
{
    prost::Message::encode_to_vec(&wire_executor::CallRequest {
        to: call.to,
        from: call.from,
        method: call.method,
        args: call.args,
        height: call.height,
    })
}

/// Calls `prost::Message::encode_to_vec` on the protocol's `Hash` with the
/// bytes of `hash`. Trusted: the result is the encoding that `prost` gives
/// this message, the same for the same bytes.
#[verifier::external_body]
fn encode_hash(hash: common::Hash) -> (bytes: Vec<u8>)
    ensures
        bytes@ == encoded_hash(hash@),
{
    prost::Message::encode_to_vec(&wire_common::Hash { hash: hash.hash })
}

/// Calls `prost::Message::encode_to_vec` on the protocol's `GetCodeRequest`
/// with the fields of `query`. Trusted: the bytes are the encoding that
/// `prost` gives this message, the same for the same fields.
#[verifier::external_body]
fn encode_get_code_request(query: GetCodeRequest) -> (bytes: Vec<u8>)
    ensures
        bytes@ == encoded_get_code_request(query@),
{
    prost::Message::encode_to_vec(&wire_evm::GetCodeRequest {
        address: query.address.map(|a| wire_common::Address { address: a.address }),
        block_number: query.block_number.map(|number| wire_evm::BlockNumber {
            lable: number.lable.map(|lable| match lable {
                Lable::Height(height) => wire_evm::block_number::Lable::Height(height),
                Lable::Tag(tag) => wire_evm::block_number::Lable::Tag(tag),
                Lable::Hash(hash) => wire_evm::block_number::Lable::Hash(hash),
            }),
        }),
    })
}

/// Calls `prost::Message::encode_to_vec` on the protocol's
/// `GetBalanceRequest` with the fields of `query`. Trusted: the bytes are the
/// encoding that `prost` gives this message, the same for the same fields.
#[verifier::external_body]
fn encode_get_balance_request(query: GetBalanceRequest) -> (bytes: Vec<u8>)
    ensures
        bytes@ == encoded_get_balance_request(query@),
{
    prost::Message::encode_to_vec(&wire_evm::GetBalanceRequest {
        address: query.address.map(|a| wire_common::Address { address: a.address }),
        block_number: query.block_number.map(|number| wire_evm::BlockNumber {
            lable: number.lable.map(|lable| match lable {
                Lable::Height(height) => wire_evm::block_number::Lable::Height(height),
                Lable::Tag(tag) => wire_evm::block_number::Lable::Tag(tag),
                Lable::Hash(hash) => wire_evm::block_number::Lable::Hash(hash),
            }),
        }),
    })
}

/// Calls `prost::Message::encode_to_vec` on the protocol's
/// `GetTransactionCountRequest` with the fields of `query`. Trusted: the
/// bytes are the encoding that `prost` gives this message, the same for the
/// same fields.
#[verifier::external_body]
fn encode_get_transaction_count_request(query: GetTransactionCountRequest) -> (bytes: Vec<u8>)
    ensures
        bytes@ == encoded_get_transaction_count_request(query@),
{
    prost::Message::encode_to_vec(&wire_evm::GetTransactionCountRequest {
        address: query.address.map(|a| wire_common::Address { address: a.address }),
        block_number: query.block_number.map(|number| wire_evm::BlockNumber {
            lable: number.lable.map(|lable| match lable {
                Lable::Height(height) => wire_evm::block_number::Lable::Height(height),
                Lable::Tag(tag) => wire_evm::block_number::Lable::Tag(tag),
                Lable::Hash(hash) => wire_evm::block_number::Lable::Hash(hash),
            }),
        }),
    })
}

/// Calls `prost::Message::encode_to_vec` on the protocol's `GetAbiRequest`
/// with the fields of `query`. Trusted: the bytes are the encoding that
/// `prost` gives this message, the same for the same fields.
#[verifier::external_body]
fn encode_get_abi_request(query: GetAbiRequest) -> (bytes: Vec<u8>)
    ensures
        bytes@ == encoded_get_abi_request(query@),
{
    prost::Message::encode_to_vec(&wire_evm::GetAbiRequest {
        address: query.address.map(|a| wire_common::Address { address: a.address }),
        block_number: query.block_number.map(|number| wire_evm::BlockNumber {
            lable: number.lable.map(|lable| match lable {
                Lable::Height(height) => wire_evm::block_number::Lable::Height(height),
                Lable::Tag(tag) => wire_evm::block_number::Lable::Tag(tag),
                Lable::Hash(hash) => wire_evm::block_number::Lable::Hash(hash),
            }),
        }),
    })
}

/// Calls `prost::Message::encode_to_vec` on the protocol's `BlockNumber` with
/// the reference that `block_number` holds. Trusted: the bytes are the
/// encoding that `prost` gives this message, the same for the same reference.
#[verifier::external_body]
fn encode_block_number(block_number: BlockNumber) -> (bytes: Vec<u8>)
    ensures
        bytes@ == encoded_block_number(block_number@),
{
    prost::Message::encode_to_vec(&wire_evm::BlockNumber {
        lable: block_number.lable.map(|lable| match lable {
            Lable::Height(height) => wire_evm::block_number::Lable::Height(height),
            Lable::Tag(tag) => wire_evm::block_number::Lable::Tag(tag),
            Lable::Hash(hash) => wire_evm::block_number::Lable::Hash(hash),
        }),
    })
}

/// Calls `prost::Message::encode_to_vec` on the protocol's
/// `GetStorageAtRequest` with the fields of `query`. Trusted: the bytes are
/// the encoding that `prost` gives this message, the same for the same
/// fields.
#[verifier::external_body]
fn encode_get_storage_at_request(query: GetStorageAtRequest) -> (bytes: Vec<u8>)
    ensures
        bytes@ == encoded_get_storage_at_request(query@),
{
    prost::Message::encode_to_vec(&wire_evm::GetStorageAtRequest {
        address: query.address.map(|a| wire_common::Address { address: a.address }),
        position: query.position.map(|p| wire_common::Hash { hash: p.hash }),
        block_number: query.block_number.map(|number| wire_evm::BlockNumber {
            lable: number.lable.map(|lable| match lable {
                Lable::Height(height) => wire_evm::block_number::Lable::Height(height),
                Lable::Tag(tag) => wire_evm::block_number::Lable::Tag(tag),
                Lable::Hash(hash) => wire_evm::block_number::Lable::Hash(hash),
            }),
        }),
    })
}

/// Calls `prost::Message::decode` for the protocol's `HashResponse`.
/// Trusted: whether it accepts `bytes` and the message it then returns
/// depend on the bytes alone; the result carries that message's fields.
#[verifier::external_body]
fn decode_hash_response(bytes: &[u8]) -> (result: Result<HashResponse, prost::DecodeError>)
    ensures
        match result {
            Ok(response) => decoded_hash_response(bytes@) == Some(response@),
            Err(_) => decoded_hash_response(bytes@) is None,
        },
{
    let message: wire_common::HashResponse = prost::Message::decode(bytes)?;
    Ok(HashResponse {
        status: message.status.map(|status| StatusCode { code: status.code }),
        hash: message.hash.map(|hash| common::Hash { hash: hash.hash }),
    })
}

/// Calls `prost::Message::decode` for the protocol's `CallResponse`.
/// Trusted: whether it accepts `bytes` and the message it then returns
/// depend on the bytes alone; the result carries that message's value.
#[verifier::external_body]
fn decode_call_response(bytes: &[u8]) -> (result: Result<CallResponse, prost::DecodeError>)
    ensures
        match result {
            Ok(response) => decoded_call_response(bytes@) == Some(response@),
            Err(_) => decoded_call_response(bytes@) is None,
        },
{
    let message: wire_executor::CallResponse = prost::Message::decode(bytes)?;
    Ok(CallResponse { value: message.value })
}

/// Calls `prost::Message::decode` for the protocol's `Receipt`. Trusted:
/// whether it accepts `bytes` and the message it then returns depend on the
/// bytes alone; the result carries that message's fields, the logs in order.
#[verifier::external_body]
fn decode_receipt(bytes: &[u8]) -> (result: Result<Receipt, prost::DecodeError>)
    ensures
        match result {
            Ok(receipt) => decoded_receipt(bytes@) == Some(receipt@),
            Err(_) => decoded_receipt(bytes@) is None,
        },
{
    let m: wire_evm::Receipt = prost::Message::decode(bytes)?;
    let logs = m.logs.into_iter().map(|l| Log {
        address: l.address, topics: l.topics, data: l.data, block_hash: l.block_hash,
        block_number: l.block_number, transaction_hash: l.transaction_hash,
        transaction_index: l.transaction_index, log_index: l.log_index,
        transaction_log_index: l.transaction_log_index,
    }).collect();
    Ok(Receipt {
        transaction_hash: m.transaction_hash, transaction_index: m.transaction_index,
        block_hash: m.block_hash, block_number: m.block_number,
        cumulative_quota_used: m.cumulative_quota_used, quota_used: m.quota_used,
        contract_address: m.contract_address, logs, state_root: m.state_root,
        logs_bloom: m.logs_bloom, error_message: m.error_message,
    })
}

/// Calls `prost::Message::decode` for the protocol's `ByteCode`. Trusted:
/// whether it accepts `bytes` and the message it then returns depend on the
/// bytes alone; the result carries that message's code.
#[verifier::external_body]
fn decode_byte_code(bytes: &[u8]) -> (result: Result<ByteCode, prost::DecodeError>)
    ensures
        match result {
            Ok(code) => decoded_byte_code(bytes@) == Some(code@),
            Err(_) => decoded_byte_code(bytes@) is None,
        },
{
    let message: wire_evm::ByteCode = prost::Message::decode(bytes)?;
    Ok(ByteCode { byte_code: message.byte_code })
}

/// Calls `prost::Message::decode` for the protocol's `Balance`. Trusted:
/// whether it accepts `bytes` and the message it then returns depend on the
/// bytes alone; the result carries that message's value.
#[verifier::external_body]
fn decode_balance(bytes: &[u8]) -> (result: Result<Balance, prost::DecodeError>)
    ensures
        match result {
            Ok(balance) => decoded_balance(bytes@) == Some(balance@),
            Err(_) => decoded_balance(bytes@) is None,
        },
{
    let message: wire_evm::Balance = prost::Message::decode(bytes)?;
    Ok(Balance { value: message.value })
}

/// Calls `prost::Message::decode` for the protocol's `Nonce`. Trusted:
/// whether it accepts `bytes` and the message it then returns depend on the
/// bytes alone; the result carries that message's count.
#[verifier::external_body]
fn decode_nonce(bytes: &[u8]) -> (result: Result<Nonce, prost::DecodeError>)
    ensures
        match result {
            Ok(nonce) => decoded_nonce(bytes@) == Some(nonce@),
            Err(_) => decoded_nonce(bytes@) is None,
        },
{
    let message: wire_evm::Nonce = prost::Message::decode(bytes)?;
    Ok(Nonce { nonce: message.nonce })
}

/// Calls `prost::Message::decode` for the protocol's `ByteAbi`. Trusted:
/// whether it accepts `bytes` and the message it then returns depend on the
/// bytes alone; the result carries that message's ABI.
#[verifier::external_body]
fn decode_byte_abi(bytes: &[u8]) -> (result: Result<ByteAbi, prost::DecodeError>)
    ensures
        match result {
            Ok(abi) => decoded_byte_abi(bytes@) == Some(abi@),
            Err(_) => decoded_byte_abi(bytes@) is None,
        },
{
    let message: wire_evm::ByteAbi = prost::Message::decode(bytes)?;
    Ok(ByteAbi { bytes_abi: message.bytes_abi })
}

/// Calls `prost::Message::decode` for the protocol's `ByteQuota`. Trusted:
/// whether it accepts `bytes` and the message it then returns depend on the
/// bytes alone; the result carries that message's quota.
#[verifier::external_body]
fn decode_byte_quota(bytes: &[u8]) -> (result: Result<ByteQuota, prost::DecodeError>)
    ensures
        match result {
            Ok(quota) => decoded_byte_quota(bytes@) == Some(quota@),
            Err(_) => decoded_byte_quota(bytes@) is None,
        },
{
    let message: wire_evm::ByteQuota = prost::Message::decode(bytes)?;
    Ok(ByteQuota { bytes_quota: message.bytes_quota })
}

/// Calls `prost::Message::decode` for the protocol's `ReceiptProof`.
/// Trusted: whether it accepts `bytes` and the message it then returns
/// depend on the bytes alone; the result carries that message's fields.
#[verifier::external_body]
fn decode_receipt_proof(bytes: &[u8]) -> (result: Result<ReceiptProof, prost::DecodeError>)
    ensures
        match result {
            Ok(proof) => decoded_receipt_proof(bytes@) == Some(proof@),
            Err(_) => decoded_receipt_proof(bytes@) is None,
        },
{
    let message: wire_evm::ReceiptProof = prost::Message::decode(bytes)?;
    Ok(ReceiptProof {
        receipt: message.receipt,
        receipt_proof: message.receipt_proof,
        roots_info: message.roots_info.map(|roots| RootsInfo {
            height: roots.height,
            state_root: roots.state_root,
            receipt_root: roots.receipt_root,
        }),
    })
}

/// Calls `prost::Message::decode` for the protocol's `RootsInfo`. Trusted:
/// whether it accepts `bytes` and the message it then returns depend on the
/// bytes alone; the result carries that message's fields.
#[verifier::external_body]
fn decode_roots_info(bytes: &[u8]) -> (result: Result<RootsInfo, prost::DecodeError>)
    ensures
        match result {
            Ok(roots) => decoded_roots_info(bytes@) == Some(roots@),
            Err(_) => decoded_roots_info(bytes@) is None,
        },
{
    let message: wire_evm::RootsInfo = prost::Message::decode(bytes)?;
    Ok(RootsInfo {
        height: message.height,
        state_root: message.state_root,
        receipt_root: message.receipt_root,
    })
}

/// Calls `prost::Message::decode` for the protocol's `Hash`. Trusted:
/// whether it accepts `bytes` and the message it then returns depend on the
/// bytes alone; the result carries that message's bytes.
#[verifier::external_body]
fn decode_hash(bytes: &[u8]) -> (result: Result<common::Hash, prost::DecodeError>)
    ensures
        match result {
            Ok(hash) => decoded_hash(bytes@) == Some(hash@),
            Err(_) => decoded_hash(bytes@) is None,
        },
{
    let message: wire_common::Hash = prost::Message::decode(bytes)?;
    Ok(common::Hash { hash: message.hash })
}

} // verus!
