//! The service façade: one handler for each method of the service.
//!
//! Every handler does the same, once, in this order: validate the request,
//! encode it, invoke the plugin function of the method's name, decode the
//! output, and return the response or the failure. [`plan`] is the part
//! before the invocation and [`settle`] the part after it; neither has a
//! plugin to reach. [`ExecutorServer::serve`] joins them round the call.

use crate::codec::decode;
use crate::codec::decoded;
use crate::codec::encode;
use crate::codec::encoded;
use crate::error::InvocationError;
use crate::error::MissingField;
use crate::error::ServiceError;
use crate::message::blockchain::Block;
use crate::message::common;
use crate::message::common::HashResponse;
use crate::message::evm::Balance;
use crate::message::evm::BlockNumber;
use crate::message::evm::ByteAbi;
use crate::message::evm::ByteCode;
use crate::message::evm::ByteQuota;
use crate::message::evm::GetAbiRequest;
use crate::message::evm::GetBalanceRequest;
use crate::message::evm::GetCodeRequest;
use crate::message::evm::GetStorageAtRequest;
use crate::message::evm::GetTransactionCountRequest;
use crate::message::evm::Nonce;
use crate::message::evm::Receipt;
use crate::message::evm::ReceiptProof;
use crate::message::evm::RootsInfo;
use crate::message::executor::CallRequest;
use crate::message::executor::CallResponse;
use crate::method::Method;
use crate::request::Request;
use crate::request::RequestView;
use crate::request::Response;
use crate::request::ResponseView;
use crate::runtime::invoke;
use crate::runtime::outcome_view;
use crate::validator::missing_field;
use crate::validator::validate;
use extism::Plugin;
use parking_lot::RwLock;
use std::sync::Arc;
use vstd::prelude::*;

verus! {

/// One call into the plugin, ready to be made: the method whose name selects
/// the function, and the bytes to hand to it.
#[derive(Clone, Debug, PartialEq, Eq)]
pub struct Invocation {
    pub method: Method,
    pub input: Vec<u8>,
}

/// What is done with a request before the plugin is involved: it is refused
/// for the first required field it lacks, or else its method and its
/// encoding are what the plugin is to be called with.
pub open spec fn planned(request: RequestView) -> Result<(Method, Seq<u8>), ServiceError> {
    match missing_field(request) {
        Some(field) => Err(ServiceError::InvalidArgument(field)),
        None => Ok((request.method(), encoded(request))),
    }
}

/// What an outcome of the invocation for `method` is turned into: a failed
/// invocation is passed on, output bytes are decoded as the response of
/// `method`, and bytes that do not decode are a `MalformedResponse`.
pub open spec fn settled(method: Method, outcome: Result<Seq<u8>, InvocationError>) -> Result<
    ResponseView,
    ServiceError,
> {
    match outcome {
        Err(error) => Err(ServiceError::Invocation(error)),
        Ok(bytes) => match decoded(method, bytes) {
            Some(response) => Ok(response),
            None => Err(ServiceError::MalformedResponse),
        },
    }
}

/// The reply to `request` when the invocation, if one is made, ends with
/// `outcome`. For a request that lacks a required field the outcome plays
/// no part.
pub open spec fn answer(request: RequestView, outcome: Result<Seq<u8>, InvocationError>) -> Result<
    ResponseView,
    ServiceError,
> {
    match planned(request) {
        Err(error) => Err(error),
        Ok(_) => settled(request.method(), outcome),
    }
}

/// The view of a reply.
pub open spec fn reply_view(reply: Result<Response, ServiceError>) -> Result<
    ResponseView,
    ServiceError,
> {
    match reply {
        Ok(response) => Ok(response@),
        Err(error) => Err(error),
    }
}

/// The view of the reply of one handler: its response, wrapped as the
/// response of its method by `wrap`, or its error.
pub open spec fn typed_reply<T>(
    reply: Result<T, ServiceError>,
    wrap: spec_fn(T) -> ResponseView,
) -> Result<ResponseView, ServiceError> {
    match reply {
        Ok(response) => Ok(wrap(response)),
        Err(error) => Err(error),
    }
}

/// Whether `reply`, from the handler of `method`, is what [`settled`] makes
/// of some outcome of an invocation.
pub open spec fn settles_invocation<T>(
    method: Method,
    reply: Result<T, ServiceError>,
    wrap: spec_fn(T) -> ResponseView,
) -> bool {
    exists|outcome: Result<Seq<u8>, InvocationError>|
        typed_reply(reply, wrap) == #[trigger] settled(method, outcome)
}

/// Validates and encodes `request`. Returns the invocation to make, or
/// `InvalidArgument` with the first required field that is absent.
pub fn plan(request: Request) -> (result: Result<Invocation, ServiceError>)
    ensures
        match result {
            Ok(invocation) => planned(request@) == Ok::<(Method, Seq<u8>), ServiceError>(
                (invocation.method, invocation.input@),
            ),
            Err(error) => planned(request@) == Err::<(Method, Seq<u8>), ServiceError>(error),
        },
{
    match validate(&request) {
        Err(field) => Err(ServiceError::InvalidArgument(field)),
        Ok(_) => {
            let method = request.method();
            Ok(Invocation { method, input: encode(request) })
        },
    }
}

/// Turns the outcome of the invocation for `method` into the reply.
pub fn settle(method: Method, outcome: Result<Vec<u8>, InvocationError>) -> (reply: Result<
    Response,
    ServiceError,
>)
    ensures
        reply_view(reply) == settled(method, outcome_view(outcome)),
{
    match outcome {
        Err(error) => Err(ServiceError::Invocation(error)),
        Ok(bytes) => decode(method, bytes.as_slice()),
    }
}

/// Invokes the plugin function of the name of `method` on `input` and
/// decodes what comes back as the response of `method`.
fn grpc_call_wasm(wasm_runtime: &Arc<RwLock<Plugin>>, method: Method, input: Vec<u8>) -> (reply:
    Result<Response, ServiceError>)
    ensures
        exists|outcome: Result<Seq<u8>, InvocationError>|
            reply_view(reply) == #[trigger] settled(method, outcome),
{
    let outcome = invoke(wasm_runtime, method, input);
    let reply = settle(method, outcome);
    assert(reply_view(reply) == settled(method, outcome_view(outcome)));
    reply
}

/// The service: the handlers of all methods round one shared plugin.
#[derive(Clone)]
pub struct ExecutorServer {
    pub wasm_runtime: Arc<RwLock<Plugin>>,
}

impl ExecutorServer {
    /// Serves one request of any method.
    ///
    /// A request that lacks a required field is refused with
    /// `InvalidArgument` before anything else is done. Otherwise the plugin
    /// is invoked once, with what [`plan`] gives, and the reply is what
    /// [`settle`] makes of the outcome, whatever the plugin did.
    pub fn serve(&self, request: Request) -> (reply: Result<Response, ServiceError>)
        ensures
            missing_field(request@) matches Some(field) ==> reply == Err::<Response, ServiceError>(
                ServiceError::InvalidArgument(field),
            ),
            exists|outcome: Result<Seq<u8>, InvocationError>|
                reply_view(reply) == #[trigger] answer(request@, outcome),
    {
        match plan(request) {
            Err(error) => {
                let reply = Err(error);
                assert(reply_view(reply) == answer(
                    request@,
                    Err(InvocationError::UnknownMethod),
                ));
                reply
            },
            Ok(invocation) => {
                let reply = grpc_call_wasm(&self.wasm_runtime, invocation.method, invocation.input);
                proof {
                    let outcome = choose|outcome: Result<Seq<u8>, InvocationError>|
                        reply_view(reply) == #[trigger] settled(invocation.method, outcome);
                    assert(reply_view(reply) == answer(request@, outcome));
                }
                reply
            },
        }
    }

    /// Executes a block and returns the resulting hash.
    ///
    /// Nothing is required of the request. The plugin is invoked once, and
    /// the reply is what [`settle`] makes of the outcome.
    pub fn exec(&self, request: Block) -> (reply: Result<HashResponse, ServiceError>)
        ensures
            settles_invocation(
                Method::Exec,
                reply,
                |response: HashResponse| ResponseView::Exec(response@),
            ),
    {
        match self.serve(Request::Exec(request)) {
            Ok(Response::Exec(response)) => Ok(response),
            Ok(_) => unreached(),
            Err(error) => Err(error),
        }
    }

    /// Performs a read-only contract call.
    ///
    /// Nothing is required of the request. The plugin is invoked once, and
    /// the reply is what [`settle`] makes of the outcome.
    pub fn call(&self, request: CallRequest) -> (reply: Result<CallResponse, ServiceError>)
        ensures
            settles_invocation(
                Method::Call,
                reply,
                |response: CallResponse| ResponseView::Call(response@),
            ),
    {
        match self.serve(Request::Call(request)) {
            Ok(Response::Call(response)) => Ok(response),
            Ok(_) => unreached(),
            Err(error) => Err(error),
        }
    }

    /// Returns the receipt of the transaction with the given hash.
    ///
    /// Nothing is required of the request. The plugin is invoked once, and
    /// the reply is what [`settle`] makes of the outcome.
    pub fn get_transaction_receipt(&self, request: common::Hash) -> (reply: Result<
        Receipt,
        ServiceError,
    >)
        ensures
            settles_invocation(
                Method::GetTransactionReceipt,
                reply,
                |response: Receipt| ResponseView::GetTransactionReceipt(response@),
            ),
    {
        match self.serve(Request::GetTransactionReceipt(request)) {
            Ok(Response::GetTransactionReceipt(response)) => Ok(response),
            Ok(_) => unreached(),
            Err(error) => Err(error),
        }
    }

    /// Returns the code of a contract at a block.
    ///
    /// A request without an address, or else without a block number, is
    /// refused with `InvalidArgument` before anything else is done.
    /// Otherwise the plugin is invoked once, and the reply is what
    /// [`settle`] makes of the outcome.
    pub fn get_code(&self, request: GetCodeRequest) -> (reply: Result<ByteCode, ServiceError>)
        ensures
            request.address is None ==> reply == Err::<ByteCode, ServiceError>(
                ServiceError::InvalidArgument(MissingField::Address),
            ),
            request.address is Some && request.block_number is None ==> reply == Err::<
                ByteCode,
                ServiceError,
            >(ServiceError::InvalidArgument(MissingField::BlockNumber)),
            request.address is Some && request.block_number is Some ==> settles_invocation(
                Method::GetCode,
                reply,
                |response: ByteCode| ResponseView::GetCode(response@),
            ),
    {
        match self.serve(Request::GetCode(request)) {
            Ok(Response::GetCode(response)) => Ok(response),
            Ok(_) => unreached(),
            Err(error) => Err(error),
        }
    }

    /// Returns the balance of an account at a block.
    ///
    /// A request without an address, or else without a block number, is
    /// refused with `InvalidArgument` before anything else is done.
    /// Otherwise the plugin is invoked once, and the reply is what
    /// [`settle`] makes of the outcome.
    pub fn get_balance(&self, request: GetBalanceRequest) -> (reply: Result<Balance, ServiceError>)
        ensures
            request.address is None ==> reply == Err::<Balance, ServiceError>(
                ServiceError::InvalidArgument(MissingField::Address),
            ),
            request.address is Some && request.block_number is None ==> reply == Err::<
                Balance,
                ServiceError,
            >(ServiceError::InvalidArgument(MissingField::BlockNumber)),
            request.address is Some && request.block_number is Some ==> settles_invocation(
                Method::GetBalance,
                reply,
                |response: Balance| ResponseView::GetBalance(response@),
            ),
    {
        match self.serve(Request::GetBalance(request)) {
            Ok(Response::GetBalance(response)) => Ok(response),
            Ok(_) => unreached(),
            Err(error) => Err(error),
        }
    }

    /// Returns the number of transactions an account has sent up to a block.
    ///
    /// A request without an address, or else without a block number, is
    /// refused with `InvalidArgument` before anything else is done.
    /// Otherwise the plugin is invoked once, and the reply is what
    /// [`settle`] makes of the outcome.
    pub fn get_transaction_count(&self, request: GetTransactionCountRequest) -> (reply: Result<
        Nonce,
        ServiceError,
    >)
        ensures
            request.address is None ==> reply == Err::<Nonce, ServiceError>(
                ServiceError::InvalidArgument(MissingField::Address),
            ),
            request.address is Some && request.block_number is None ==> reply == Err::<
                Nonce,
                ServiceError,
            >(ServiceError::InvalidArgument(MissingField::BlockNumber)),
            request.address is Some && request.block_number is Some ==> settles_invocation(
                Method::GetTransactionCount,
                reply,
                |response: Nonce| ResponseView::GetTransactionCount(response@),
            ),
    {
        match self.serve(Request::GetTransactionCount(request)) {
            Ok(Response::GetTransactionCount(response)) => Ok(response),
            Ok(_) => unreached(),
            Err(error) => Err(error),
        }
    }

    /// Returns the ABI of a contract at a block.
    ///
    /// A request without an address, or else without a block number, is
    /// refused with `InvalidArgument` before anything else is done.
    /// Otherwise the plugin is invoked once, and the reply is what
    /// [`settle`] makes of the outcome.
    pub fn get_abi(&self, request: GetAbiRequest) -> (reply: Result<ByteAbi, ServiceError>)
        ensures
            request.address is None ==> reply == Err::<ByteAbi, ServiceError>(
                ServiceError::InvalidArgument(MissingField::Address),
            ),
            request.address is Some && request.block_number is None ==> reply == Err::<
                ByteAbi,
                ServiceError,
            >(ServiceError::InvalidArgument(MissingField::BlockNumber)),
            request.address is Some && request.block_number is Some ==> settles_invocation(
                Method::GetAbi,
                reply,
                |response: ByteAbi| ResponseView::GetAbi(response@),
            ),
    {
        match self.serve(Request::GetAbi(request)) {
            Ok(Response::GetAbi(response)) => Ok(response),
            Ok(_) => unreached(),
            Err(error) => Err(error),
        }
    }

    /// Estimates the quota a call would use.
    ///
    /// Nothing is required of the request. The plugin is invoked once, and
    /// the reply is what [`settle`] makes of the outcome.
    pub fn estimate_quota(&self, request: CallRequest) -> (reply: Result<ByteQuota, ServiceError>)
        ensures
            settles_invocation(
                Method::EstimateQuota,
                reply,
                |response: ByteQuota| ResponseView::EstimateQuota(response@),
            ),
    {
        match self.serve(Request::EstimateQuota(request)) {
            Ok(Response::EstimateQuota(response)) => Ok(response),
            Ok(_) => unreached(),
            Err(error) => Err(error),
        }
    }

    /// Returns the receipt of a transaction with the proof that it belongs to
    /// its block.
    ///
    /// Nothing is required of the request. The plugin is invoked once, and
    /// the reply is what [`settle`] makes of the outcome.
    pub fn get_receipt_proof(&self, request: common::Hash) -> (reply: Result<
        ReceiptProof,
        ServiceError,
    >)
        ensures
            settles_invocation(
                Method::GetReceiptProof,
                reply,
                |response: ReceiptProof| ResponseView::GetReceiptProof(response@),
            ),
    {
        match self.serve(Request::GetReceiptProof(request)) {
            Ok(Response::GetReceiptProof(response)) => Ok(response),
            Ok(_) => unreached(),
            Err(error) => Err(error),
        }
    }

    /// Returns the state and receipt roots at a block.
    ///
    /// Nothing is required of the request. The plugin is invoked once, and
    /// the reply is what [`settle`] makes of the outcome.
    pub fn get_roots_info(&self, request: BlockNumber) -> (reply: Result<RootsInfo, ServiceError>)
        ensures
            settles_invocation(
                Method::GetRootsInfo,
                reply,
                |response: RootsInfo| ResponseView::GetRootsInfo(response@),
            ),
    {
        match self.serve(Request::GetRootsInfo(request)) {
            Ok(Response::GetRootsInfo(response)) => Ok(response),
            Ok(_) => unreached(),
            Err(error) => Err(error),
        }
    }

    /// Returns the content of one storage slot of a contract at a block.
    ///
    /// A request without an address, or else without a position, or else
    /// without a block number, is refused with `InvalidArgument` before
    /// anything else is done. Otherwise the plugin is invoked once, and the
    /// reply is what [`settle`] makes of the outcome.
    pub fn get_storage_at(&self, request: GetStorageAtRequest) -> (reply: Result<
        common::Hash,
        ServiceError,
    >)
        ensures
            request.address is None ==> reply == Err::<common::Hash, ServiceError>(
                ServiceError::InvalidArgument(MissingField::Address),
            ),
            request.address is Some && request.position is None ==> reply == Err::<
                common::Hash,
                ServiceError,
            >(ServiceError::InvalidArgument(MissingField::Position)),
            request.address is Some && request.position is Some && request.block_number is None
                ==> reply == Err::<common::Hash, ServiceError>(
                ServiceError::InvalidArgument(MissingField::BlockNumber),
            ),
            request.address is Some && request.position is Some && request.block_number is Some
                ==> settles_invocation(
                Method::GetStorageAt,
                reply,
                |response: common::Hash| ResponseView::GetStorageAt(response@),
            ),
    {
        match self.serve(Request::GetStorageAt(request)) {
            Ok(Response::GetStorageAt(response)) => Ok(response),
            Ok(_) => unreached(),
            Err(error) => Err(error),
        }
    }
}

} // verus!
