use cita_cloud_proto::blockchain as wire_blockchain;
use cita_cloud_proto::common as wire_common;
use cita_cloud_proto::evm as wire_evm;
use cita_cloud_proto::executor as wire_executor;
use executor_bridge::codec::{decode, encode};
use executor_bridge::error::ServiceError;
use executor_bridge::message::blockchain::{Block, BlockHeader};
use executor_bridge::message::common::{Address, HashResponse, StatusCode};
use executor_bridge::message::evm::{
    Balance, BlockNumber, ByteAbi, ByteCode, ByteQuota, GetAbiRequest, GetBalanceRequest,
    GetCodeRequest, GetStorageAtRequest, GetTransactionCountRequest, Lable, Log, Nonce, Receipt,
    ReceiptProof, RootsInfo,
};
use executor_bridge::message::executor::{CallRequest, CallResponse};
use executor_bridge::method::Method;
use executor_bridge::request::{Request, Response};
use prost::Message;

fn hash_of(bytes: &[u8]) -> executor_bridge::message::common::Hash {
    executor_bridge::message::common::Hash { hash: bytes.to_vec() }
}

fn height(n: u64) -> Option<BlockNumber> {
    Some(BlockNumber { lable: Some(Lable::Height(n)) })
}

fn account() -> Option<Address> {
    Some(Address { address: vec![0xaa, 0xbb] })
}

#[test]
fn encode_hash_is_one_length_delimited_field() {
    let bytes = encode(Request::GetTransactionReceipt(hash_of(&[1, 2, 3])));
    assert_eq!(bytes, vec![0x0a, 0x03, 1, 2, 3]);
    let bytes = encode(Request::GetReceiptProof(hash_of(&[1, 2, 3])));
    assert_eq!(bytes, vec![0x0a, 0x03, 1, 2, 3]);
}

#[test]
fn encode_empty_hash_is_empty() {
    assert_eq!(encode(Request::GetTransactionReceipt(hash_of(&[]))), Vec::<u8>::new());
}

#[test]
fn encode_get_code_request_nests_address_and_block() {
    let request = GetCodeRequest { address: account(), block_number: height(5) };
    let bytes = encode(Request::GetCode(request));
    assert_eq!(bytes, vec![0x0a, 0x04, 0x0a, 0x02, 0xaa, 0xbb, 0x12, 0x02, 0x08, 0x05]);
}

#[test]
fn encode_account_queries_share_one_layout() {
    let expected = vec![0x0a, 0x04, 0x0a, 0x02, 0xaa, 0xbb, 0x12, 0x02, 0x08, 0x05];
    let balance = GetBalanceRequest { address: account(), block_number: height(5) };
    assert_eq!(encode(Request::GetBalance(balance)), expected);
    let count = GetTransactionCountRequest { address: account(), block_number: height(5) };
    assert_eq!(encode(Request::GetTransactionCount(count)), expected);
    let abi = GetAbiRequest { address: account(), block_number: height(5) };
    assert_eq!(encode(Request::GetAbi(abi)), expected);
}

#[test]
fn encode_keeps_a_present_but_open_block_reference() {
    let request = GetCodeRequest {
        address: None,
        block_number: Some(BlockNumber { lable: None }),
    };
    assert_eq!(encode(Request::GetCode(request)), vec![0x12, 0x00]);
}

#[test]
fn encode_block_number_by_height_tag_and_hash() {
    let by_height = BlockNumber { lable: Some(Lable::Height(300)) };
    assert_eq!(encode(Request::GetRootsInfo(by_height)), vec![0x08, 0xac, 0x02]);
    let by_tag = BlockNumber { lable: Some(Lable::Tag(String::from("latest"))) };
    assert_eq!(
        encode(Request::GetRootsInfo(by_tag)),
        vec![0x12, 0x06, b'l', b'a', b't', b'e', b's', b't']
    );
    let by_hash = BlockNumber { lable: Some(Lable::Hash(vec![7, 8])) };
    assert_eq!(encode(Request::GetRootsInfo(by_hash)), vec![0x1a, 0x02, 7, 8]);
    let open = BlockNumber { lable: None };
    assert_eq!(encode(Request::GetRootsInfo(open)), Vec::<u8>::new());
}

#[test]
fn encode_get_storage_at_request_has_three_fields() {
    let request = GetStorageAtRequest {
        address: account(),
        position: Some(hash_of(&[1])),
        block_number: Some(BlockNumber { lable: Some(Lable::Tag(String::from("p"))) }),
    };
    let bytes = encode(Request::GetStorageAt(request));
    assert_eq!(
        bytes,
        vec![
            0x0a, 0x04, 0x0a, 0x02, 0xaa, 0xbb, 0x12, 0x03, 0x0a, 0x01, 0x01, 0x1a, 0x03, 0x12,
            0x01, b'p'
        ]
    );
}

#[test]
fn encode_call_request_repeats_the_args_field() {
    let call = CallRequest {
        to: vec![1],
        from: vec![2],
        method: vec![3],
        args: vec![vec![4], vec![5, 6]],
        height: 300,
    };
    let expected = vec![
        0x0a, 0x01, 1, 0x12, 0x01, 2, 0x1a, 0x01, 3, 0x22, 0x01, 4, 0x22, 0x02, 5, 6, 0x28, 0xac,
        0x02,
    ];
    assert_eq!(encode(Request::Call(call.clone())), expected);
    assert_eq!(encode(Request::EstimateQuota(call)), expected);
}

#[test]
fn encode_block_carries_header_body_and_roots() {
    let block = Block {
        version: 1,
        header: Some(BlockHeader {
            prevhash: vec![1],
            timestamp: 2,
            height: 3,
            transactions_root: vec![4],
            proposer: vec![5],
        }),
        body: Some(wire_blockchain::RawTransactions { body: vec![] }),
        proof: vec![6],
        state_root: vec![7],
    };
    let expected = vec![
        0x08, 0x01, 0x12, 0x0d, 0x0a, 0x01, 1, 0x10, 2, 0x18, 3, 0x22, 0x01, 4, 0x2a, 0x01, 5,
        0x1a, 0x00, 0x22, 0x01, 6, 0x2a, 0x01, 7,
    ];
    assert_eq!(encode(Request::Exec(block)), expected);
}

#[test]
fn encode_block_agrees_with_the_protocol_type() {
    let transaction = wire_blockchain::RawTransaction {
        tx: Some(wire_blockchain::raw_transaction::Tx::NormalTx(
            wire_blockchain::UnverifiedTransaction {
                transaction: None,
                transaction_hash: vec![9, 9],
                witness: Some(wire_blockchain::Witness { signature: vec![1], sender: vec![2] }),
            },
        )),
    };
    let body = wire_blockchain::RawTransactions { body: vec![transaction] };
    let block = Block {
        version: 3,
        header: None,
        body: Some(body.clone()),
        proof: vec![],
        state_root: vec![8; 32],
    };
    let wire = wire_blockchain::Block {
        version: 3,
        header: None,
        body: Some(body),
        proof: vec![],
        state_root: vec![8; 32],
    };
    assert_eq!(encode(Request::Exec(block)), wire.encode_to_vec());
}

#[test]
fn decode_hash_response_reads_status_and_hash() {
    let bytes = [0x0a, 0x02, 0x08, 0x07, 0x12, 0x04, 0x0a, 0x02, 9, 9];
    let expected = HashResponse {
        status: Some(StatusCode { code: 7 }),
        hash: Some(hash_of(&[9, 9])),
    };
    assert_eq!(decode(Method::Exec, &bytes), Ok(Response::Exec(expected)));
}

#[test]
fn decode_empty_bytes_is_the_message_of_all_defaults() {
    let empty: [u8; 0] = [];
    assert_eq!(
        decode(Method::Exec, &empty),
        Ok(Response::Exec(HashResponse { status: None, hash: None }))
    );
    assert_eq!(
        decode(Method::GetCode, &empty),
        Ok(Response::GetCode(ByteCode { byte_code: vec![] }))
    );
    assert_eq!(
        decode(Method::GetRootsInfo, &empty),
        Ok(Response::GetRootsInfo(RootsInfo {
            height: 0,
            state_root: vec![],
            receipt_root: vec![]
        }))
    );
}

#[test]
fn decode_single_field_responses() {
    let bytes = [0x0a, 0x02, 5, 6];
    assert_eq!(
        decode(Method::Call, &bytes),
        Ok(Response::Call(CallResponse { value: vec![5, 6] }))
    );
    assert_eq!(
        decode(Method::GetCode, &bytes),
        Ok(Response::GetCode(ByteCode { byte_code: vec![5, 6] }))
    );
    assert_eq!(
        decode(Method::GetBalance, &bytes),
        Ok(Response::GetBalance(Balance { value: vec![5, 6] }))
    );
    assert_eq!(
        decode(Method::GetTransactionCount, &bytes),
        Ok(Response::GetTransactionCount(Nonce { nonce: vec![5, 6] }))
    );
    assert_eq!(
        decode(Method::GetAbi, &bytes),
        Ok(Response::GetAbi(ByteAbi { bytes_abi: vec![5, 6] }))
    );
    assert_eq!(
        decode(Method::EstimateQuota, &bytes),
        Ok(Response::EstimateQuota(ByteQuota { bytes_quota: vec![5, 6] }))
    );
    assert_eq!(decode(Method::GetStorageAt, &bytes), Ok(Response::GetStorageAt(hash_of(&[5, 6]))));
}

#[test]
fn decode_roots_info_reads_three_fields() {
    let bytes = [0x08, 0x2a, 0x12, 0x01, 1, 0x1a, 0x02, 2, 3];
    let expected = RootsInfo { height: 42, state_root: vec![1], receipt_root: vec![2, 3] };
    assert_eq!(decode(Method::GetRootsInfo, &bytes), Ok(Response::GetRootsInfo(expected)));
}

#[test]
fn decode_receipt_proof_reads_nested_roots() {
    let wire = wire_evm::ReceiptProof {
        receipt: vec![1, 2],
        receipt_proof: vec![3],
        roots_info: Some(wire_evm::RootsInfo {
            height: 9,
            state_root: vec![4],
            receipt_root: vec![5],
        }),
    };
    let expected = ReceiptProof {
        receipt: vec![1, 2],
        receipt_proof: vec![3],
        roots_info: Some(RootsInfo { height: 9, state_root: vec![4], receipt_root: vec![5] }),
    };
    assert_eq!(
        decode(Method::GetReceiptProof, &wire.encode_to_vec()),
        Ok(Response::GetReceiptProof(expected))
    );
    let bare = wire_evm::ReceiptProof { receipt: vec![], receipt_proof: vec![7], roots_info: None };
    let expected = ReceiptProof { receipt: vec![], receipt_proof: vec![7], roots_info: None };
    assert_eq!(
        decode(Method::GetReceiptProof, &bare.encode_to_vec()),
        Ok(Response::GetReceiptProof(expected))
    );
}

#[test]
fn decode_receipt_reads_every_field_and_the_logs_in_order() {
    let wire_log = |n: u8| wire_evm::Log {
        address: vec![n, 1],
        topics: vec![vec![n, 2], vec![n, 3]],
        data: vec![n, 4],
        block_hash: vec![n, 5],
        block_number: 60 + n as u64,
        transaction_hash: vec![n, 7],
        transaction_index: 80 + n as u64,
        log_index: 90 + n as u64,
        transaction_log_index: 100 + n as u64,
    };
    let log = |n: u8| Log {
        address: vec![n, 1],
        topics: vec![vec![n, 2], vec![n, 3]],
        data: vec![n, 4],
        block_hash: vec![n, 5],
        block_number: 60 + n as u64,
        transaction_hash: vec![n, 7],
        transaction_index: 80 + n as u64,
        log_index: 90 + n as u64,
        transaction_log_index: 100 + n as u64,
    };
    let wire = wire_evm::Receipt {
        transaction_hash: vec![1],
        transaction_index: 2,
        block_hash: vec![3],
        block_number: 4,
        cumulative_quota_used: vec![5],
        quota_used: vec![6],
        contract_address: vec![7],
        logs: vec![wire_log(1), wire_log(2)],
        state_root: vec![9],
        logs_bloom: vec![10],
        error_message: String::from("reverted"),
    };
    let expected = Receipt {
        transaction_hash: vec![1],
        transaction_index: 2,
        block_hash: vec![3],
        block_number: 4,
        cumulative_quota_used: vec![5],
        quota_used: vec![6],
        contract_address: vec![7],
        logs: vec![log(1), log(2)],
        state_root: vec![9],
        logs_bloom: vec![10],
        error_message: String::from("reverted"),
    };
    assert_eq!(
        decode(Method::GetTransactionReceipt, &wire.encode_to_vec()),
        Ok(Response::GetTransactionReceipt(expected))
    );
}

#[test]
fn decode_refuses_truncated_bytes_for_every_method() {
    let methods = [
        Method::Exec,
        Method::Call,
        Method::GetTransactionReceipt,
        Method::GetCode,
        Method::GetBalance,
        Method::GetTransactionCount,
        Method::GetAbi,
        Method::EstimateQuota,
        Method::GetReceiptProof,
        Method::GetRootsInfo,
        Method::GetStorageAt,
    ];
    for method in methods {
        assert_eq!(decode(method, &[0xff]), Err(ServiceError::MalformedResponse));
        assert_eq!(decode(method, &[0x0a, 0x05, 1]), Err(ServiceError::MalformedResponse));
    }
}

#[test]
fn decode_refuses_a_field_of_the_wrong_wire_type() {
    assert_eq!(decode(Method::Exec, &[0x08, 0x01]), Err(ServiceError::MalformedResponse));
    assert_eq!(
        decode(Method::GetRootsInfo, &[0x0a, 0x01, 1]),
        Err(ServiceError::MalformedResponse)
    );
}

#[test]
fn decode_skips_fields_the_response_does_not_have() {
    let bytes = [0x0a, 0x01, 4, 0x78, 0x01];
    assert_eq!(
        decode(Method::GetBalance, &bytes),
        Ok(Response::GetBalance(Balance { value: vec![4] }))
    );
}

#[test]
fn hash_survives_encoding_and_decoding() {
    for hash in [vec![], vec![0], vec![1, 2, 3], vec![0xff; 32], vec![7; 300]] {
        let bytes = encode(Request::GetReceiptProof(hash_of(&hash)));
        assert_eq!(
            decode(Method::GetStorageAt, &bytes),
            Ok(Response::GetStorageAt(hash_of(&hash)))
        );
    }
}

#[test]
fn encoded_requests_decode_as_the_protocol_types() {
    let request = GetStorageAtRequest {
        address: account(),
        position: Some(hash_of(&[1, 2])),
        block_number: Some(BlockNumber { lable: Some(Lable::Hash(vec![3])) }),
    };
    let wire = wire_evm::GetStorageAtRequest::decode(&*encode(Request::GetStorageAt(request)));
    let expected = wire_evm::GetStorageAtRequest {
        address: Some(wire_common::Address { address: vec![0xaa, 0xbb] }),
        position: Some(wire_common::Hash { hash: vec![1, 2] }),
        block_number: Some(wire_evm::BlockNumber {
            lable: Some(wire_evm::block_number::Lable::Hash(vec![3])),
        }),
    };
    assert_eq!(wire, Ok(expected));

    let call = CallRequest {
        to: vec![1; 20],
        from: vec![2; 20],
        method: vec![3; 4],
        args: vec![vec![], vec![4]],
        height: u64::MAX,
    };
    let wire = wire_executor::CallRequest::decode(&*encode(Request::Call(call)));
    let expected = wire_executor::CallRequest {
        to: vec![1; 20],
        from: vec![2; 20],
        method: vec![3; 4],
        args: vec![vec![], vec![4]],
        height: u64::MAX,
    };
    assert_eq!(wire, Ok(expected));
}

#[test]
fn encoded_responses_of_the_protocol_decode_to_the_same_fields() {
    let wire = wire_common::HashResponse {
        status: Some(wire_common::StatusCode { code: 0 }),
        hash: Some(wire_common::Hash { hash: vec![1; 32] }),
    };
    let expected =
        HashResponse { status: Some(StatusCode { code: 0 }), hash: Some(hash_of(&[1; 32])) };
    assert_eq!(decode(Method::Exec, &wire.encode_to_vec()), Ok(Response::Exec(expected)));

    let wire = wire_evm::Nonce { nonce: vec![0, 0, 1] };
    assert_eq!(
        decode(Method::GetTransactionCount, &wire.encode_to_vec()),
        Ok(Response::GetTransactionCount(Nonce { nonce: vec![0, 0, 1] }))
    );
}

#[test]
fn every_kind_of_request_is_read_back_by_the_protocol_as_it_was_written() {
    let header = BlockHeader {
        prevhash: vec![0xff; 32],
        timestamp: u64::MAX,
        height: 0,
        transactions_root: vec![],
        proposer: vec![0x80],
    };
    let block = Block {
        version: u32::MAX,
        header: Some(header),
        body: None,
        proof: vec![0; 3],
        state_root: vec![0xab, 0xcd],
    };
    let expected = wire_blockchain::Block {
        version: u32::MAX,
        header: Some(wire_blockchain::BlockHeader {
            prevhash: vec![0xff; 32],
            timestamp: u64::MAX,
            height: 0,
            transactions_root: vec![],
            proposer: vec![0x80],
        }),
        body: None,
        proof: vec![0; 3],
        state_root: vec![0xab, 0xcd],
    };
    assert_eq!(wire_blockchain::Block::decode(&*encode(Request::Exec(block))), Ok(expected));

    let expected = wire_common::Hash { hash: vec![0, 0xff, 0x80] };
    let written = encode(Request::GetTransactionReceipt(hash_of(&[0, 0xff, 0x80])));
    assert_eq!(wire_common::Hash::decode(&*written), Ok(expected));

    let lables = [
        (None, None),
        (Some(Lable::Height(0)), Some(wire_evm::block_number::Lable::Height(0))),
        (Some(Lable::Height(u64::MAX)), Some(wire_evm::block_number::Lable::Height(u64::MAX))),
        (
            Some(Lable::Tag(String::from("pending"))),
            Some(wire_evm::block_number::Lable::Tag(String::from("pending"))),
        ),
        (Some(Lable::Tag(String::new())), Some(wire_evm::block_number::Lable::Tag(String::new()))),
        (
            Some(Lable::Hash(vec![0xee; 32])),
            Some(wire_evm::block_number::Lable::Hash(vec![0xee; 32])),
        ),
        (Some(Lable::Hash(vec![])), Some(wire_evm::block_number::Lable::Hash(vec![]))),
    ];
    for (lable, wire_lable) in lables {
        let number = BlockNumber { lable: lable.clone() };
        let wire_number = wire_evm::BlockNumber { lable: wire_lable };
        let written = encode(Request::GetRootsInfo(number.clone()));
        assert_eq!(wire_evm::BlockNumber::decode(&*written), Ok(wire_number.clone()));

        for address in [None, Some(vec![]), Some(vec![0xab; 20])] {
            let own = address.clone().map(|address| Address { address });
            let wire = address.map(|address| wire_common::Address { address });

            let query = GetCodeRequest { address: own.clone(), block_number: Some(number.clone()) };
            let expected = wire_evm::GetCodeRequest {
                address: wire.clone(),
                block_number: Some(wire_number.clone()),
            };
            let written = encode(Request::GetCode(query));
            assert_eq!(wire_evm::GetCodeRequest::decode(&*written), Ok(expected));

            let query = GetBalanceRequest { address: own.clone(), block_number: None };
            let expected =
                wire_evm::GetBalanceRequest { address: wire.clone(), block_number: None };
            let written = encode(Request::GetBalance(query));
            assert_eq!(wire_evm::GetBalanceRequest::decode(&*written), Ok(expected));

            let query = GetTransactionCountRequest {
                address: own.clone(),
                block_number: Some(number.clone()),
            };
            let expected = wire_evm::GetTransactionCountRequest {
                address: wire.clone(),
                block_number: Some(wire_number.clone()),
            };
            let written = encode(Request::GetTransactionCount(query));
            assert_eq!(wire_evm::GetTransactionCountRequest::decode(&*written), Ok(expected));

            let query = GetAbiRequest { address: own, block_number: Some(number.clone()) };
            let expected =
                wire_evm::GetAbiRequest { address: wire, block_number: Some(wire_number.clone()) };
            let written = encode(Request::GetAbi(query));
            assert_eq!(wire_evm::GetAbiRequest::decode(&*written), Ok(expected));
        }
    }
}
