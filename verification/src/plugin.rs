//! The answers of the placeholder plugin: one function for each method of
//! the service, under the method's name.
//!
//! Each function takes the binary envelope of a request, as the bridge
//! hands it to the engine, and returns the bytes of the answer. The
//! placeholder executes nothing. Whatever it is asked, it succeeds with an
//! empty output, which the bridge decodes as the response whose fields are
//! all unset. Reading the input from the engine and handing the output back
//! to it is left to the export glue of the plugin development kit.

use extism_pdk::FnResult;
use extism_pdk::WithReturnCode;
use vstd::prelude::*;

verus! {

/// The error of the plugin development kit.
#[verifier::external_type_specification]
#[verifier::external_body]
pub struct ExPluginError(extism_pdk::Error);

/// The error of a plugin function together with the exit code to report.
#[verifier::external_type_specification]
#[verifier::external_body]
#[verifier::reject_recursive_types(T)]
pub struct ExWithReturnCode<T>(WithReturnCode<T>);

/// Whether `answer` is the placeholder's: success with no bytes in it.
pub open spec fn is_empty_answer(answer: FnResult<Vec<u8>>) -> bool {
    answer matches Ok(bytes) && bytes@ == Seq::<u8>::empty()
}

/// Answers a request to execute a block. The input is not read.
pub fn exec(_input: Vec<u8>) -> (answer: FnResult<Vec<u8>>)
    ensures
        is_empty_answer(answer),
{
    Ok(Vec::new())
}

/// Answers a read-only contract call. The input is not read.
pub fn call(_input: Vec<u8>) -> (answer: FnResult<Vec<u8>>)
    ensures
        is_empty_answer(answer),
{
    Ok(Vec::new())
}

/// Answers a request for the receipt of a transaction. The input is not read.
pub fn get_transaction_receipt(_input: Vec<u8>) -> (answer: FnResult<Vec<u8>>)
    ensures
        is_empty_answer(answer),
{
    Ok(Vec::new())
}

/// Answers a request for the code of a contract. The input is not read.
pub fn get_code(_input: Vec<u8>) -> (answer: FnResult<Vec<u8>>)
    ensures
        is_empty_answer(answer),
{
    Ok(Vec::new())
}

/// Answers a request for the balance of an account. The input is not read.
pub fn get_balance(_input: Vec<u8>) -> (answer: FnResult<Vec<u8>>)
    ensures
        is_empty_answer(answer),
{
    Ok(Vec::new())
}

/// Answers a request for the transaction count of an account. The input is not read.
pub fn get_transaction_count(_input: Vec<u8>) -> (answer: FnResult<Vec<u8>>)
    ensures
        is_empty_answer(answer),
{
    Ok(Vec::new())
}

/// Answers a request for the ABI of a contract. The input is not read.
pub fn get_abi(_input: Vec<u8>) -> (answer: FnResult<Vec<u8>>)
    ensures
        is_empty_answer(answer),
{
    Ok(Vec::new())
}

/// Answers a request to estimate the quota of a call. The input is not read.
pub fn estimate_quota(_input: Vec<u8>) -> (answer: FnResult<Vec<u8>>)
    ensures
        is_empty_answer(answer),
{
    Ok(Vec::new())
}

/// Answers a request for a receipt with its proof. The input is not read.
pub fn get_receipt_proof(_input: Vec<u8>) -> (answer: FnResult<Vec<u8>>)
    ensures
        is_empty_answer(answer),
{
    Ok(Vec::new())
}

/// Answers a request for the roots at a block. The input is not read.
pub fn get_roots_info(_input: Vec<u8>) -> (answer: FnResult<Vec<u8>>)
    ensures
        is_empty_answer(answer),
{
    Ok(Vec::new())
}

/// Answers a request for the content of a storage slot. The input is not read.
pub fn get_storage_at(_input: Vec<u8>) -> (answer: FnResult<Vec<u8>>)
    ensures
        is_empty_answer(answer),
{
    Ok(Vec::new())
}

} // verus!
