//! What holds of the bridge for every request and every behaviour of the
//! plugin.

use crate::codec::decoded;
use crate::error::InvocationError;
use crate::error::MissingField;
use crate::error::ServiceError;
use crate::error::StatusKind;
use crate::executor_server::answer;
use crate::executor_server::planned;
use crate::method::Method;
use crate::request::RequestView;
use crate::request::ResponseView;
use crate::runtime::failure_kind_spec;
use crate::runtime::invocation_outcome_spec;
use crate::validator::absent;
use crate::validator::missing_field;
use vstd::prelude::*;

verus! {

/// A request that lacks a field its method requires is refused with
/// `InvalidArgument`: no invocation is planned for it, and the reply is the
/// same whatever the plugin would have answered. The field reported is the
/// first one absent; where the address is absent it is the address.
pub proof fn lemma_absent_field_is_refused(
    request: RequestView,
    field: MissingField,
    outcome: Result<Seq<u8>, InvocationError>,
)
    requires
        absent(request, field),
    ensures
        missing_field(request) is Some,
        absent(request, missing_field(request)->0),
        absent(request, MissingField::Address) ==> missing_field(request) == Some(
            MissingField::Address,
        ),
        planned(request) == Err::<(Method, Seq<u8>), ServiceError>(
            ServiceError::InvalidArgument(missing_field(request)->0),
        ),
        answer(request, outcome) == Err::<ResponseView, ServiceError>(
            ServiceError::InvalidArgument(missing_field(request)->0),
        ),
{
}

/// Only the four account queries and the storage query can lack a field:
/// every other request passes validation, whatever it holds.
pub proof fn lemma_other_methods_pass(request: RequestView)
    requires
        request.method() != Method::GetCode,
        request.method() != Method::GetBalance,
        request.method() != Method::GetTransactionCount,
        request.method() != Method::GetAbi,
        request.method() != Method::GetStorageAt,
    ensures
        missing_field(request) is None,
        planned(request) is Ok,
{
}

/// Where the plugin's output bytes are the encoding of a response of the
/// method, the reply to a valid request is exactly that response: the bridge
/// adds nothing and drops nothing.
pub proof fn lemma_decodable_output_is_returned(
    request: RequestView,
    bytes: Seq<u8>,
    response: ResponseView,
)
    requires
        missing_field(request) is None,
        decoded(request.method(), bytes) == Some(response),
    ensures
        answer(request, Ok(bytes)) == Ok::<ResponseView, ServiceError>(response),
        response.method() == request.method(),
{
}

/// Where the plugin's output bytes are no encoding of a response of the
/// method, the reply is `MalformedResponse`, never a response.
pub proof fn lemma_undecodable_output_is_malformed(request: RequestView, bytes: Seq<u8>)
    requires
        missing_field(request) is None,
        decoded(request.method(), bytes) is None,
    ensures
        answer(request, Ok(bytes)) == Err::<ResponseView, ServiceError>(
            ServiceError::MalformedResponse,
        ),
{
}

/// A failed invocation is passed on to the caller as it is, and no response
/// stands in for it.
pub proof fn lemma_failed_invocation_is_passed_on(request: RequestView, error: InvocationError)
    requires
        missing_field(request) is None,
    ensures
        answer(request, Err(error)) == Err::<ResponseView, ServiceError>(
            ServiceError::Invocation(error),
        ),
{
}

/// A reply, when it is a response, is a response of the method that was
/// asked; when it is a failure, it is reported as `InvalidArgument` exactly
/// where the request lacks a required field.
pub proof fn lemma_reply_fits_request(
    request: RequestView,
    outcome: Result<Seq<u8>, InvocationError>,
)
    ensures
        answer(request, outcome) matches Ok(response) ==> response.method() == request.method(),
        answer(request, outcome) matches Err(error) ==> (error.kind_spec()
            == StatusKind::InvalidArgument <==> missing_field(request) is Some),
{
}

/// No two methods share a name: the name selects one function of the plugin.
pub proof fn lemma_method_names_differ(first: Method, second: Method)
    requires
        first != second,
    ensures
        first.name_spec() != second.name_spec(),
{
    reveal_strlit("exec");
    reveal_strlit("call");
    reveal_strlit("get_transaction_receipt");
    reveal_strlit("get_code");
    reveal_strlit("get_balance");
    reveal_strlit("get_transaction_count");
    reveal_strlit("get_abi");
    reveal_strlit("estimate_quota");
    reveal_strlit("get_receipt_proof");
    reveal_strlit("get_roots_info");
    reveal_strlit("get_storage_at");
    let a = first.name_spec();
    let b = second.name_spec();
    if a.len() == b.len() {
        assert(a[0] != b[0] || a[4] != b[4]);
    }
}

/// The failures of the engine are told apart. Each text with which the
/// engine refuses to enter the plugin's instance is `PluginUnavailable`;
/// each text with which it reports output that it cannot read, the last of
/// them behind any identifier, is `NoOutput`; and no text is both.
pub proof fn lemma_engine_failures_are_told_apart()
    ensures
        failure_kind_spec("cannot make reentrant calls into plugin"@)
            == InvocationError::PluginUnavailable,
        failure_kind_spec(
            "instance lock was poisoned; previous thread panicked while calling into wasm"@,
        ) == InvocationError::PluginUnavailable,
        failure_kind_spec("unable to set output"@) == InvocationError::NoOutput,
        failure_kind_spec("unable to set output length"@) == InvocationError::NoOutput,
        failure_kind_spec("call to set extism output offset failed"@) == InvocationError::NoOutput,
        failure_kind_spec("call to set extism output length failed"@) == InvocationError::NoOutput,
        forall|identifier: Seq<char>| #[trigger]
            failure_kind_spec(identifier + " unable to locate extism memory"@)
                == InvocationError::NoOutput,
{
    reveal_strlit("cannot make reentrant calls into plugin");
    reveal_strlit("instance lock was poisoned; previous thread panicked while calling into wasm");
    reveal_strlit("unable to set output");
    reveal_strlit("unable to set output length");
    reveal_strlit("call to set extism output offset failed");
    reveal_strlit("call to set extism output length failed");
    reveal_strlit(" unable to locate extism memory");
    let reentrant = "cannot make reentrant calls into plugin"@;
    let poisoned = "instance lock was poisoned; previous thread panicked while calling into wasm"@;
    let tail = " unable to locate extism memory"@;
    assert(reentrant.len() == 39 && reentrant[2] == 'n' && reentrant[8] == 'a');
    assert(poisoned.len() == 76 && poisoned[45] == 'a');
    assert("unable to set output"@.len() == 20);
    assert("unable to set output length"@.len() == 27);
    assert("call to set extism output offset failed"@[2] == 'l');
    assert("call to set extism output length failed"@[2] == 'l');
    assert(tail.len() == 31 && tail[0] == ' ');
    assert forall|identifier: Seq<char>| #[trigger]
        failure_kind_spec(identifier + tail) == InvocationError::NoOutput by {
        let message = identifier + tail;
        assert(message.subrange(message.len() - tail.len(), message.len() as int) == tail);
        assert(message[message.len() - 31] == ' ');
        if message == reentrant {
            assert(message[8] == 'a');
        }
        if message == poisoned {
            assert(message[45] == 'a');
        }
    }
}

/// A failure of an invocation reaches the caller as the failure it is: the
/// reply to a valid request carries `UnknownMethod` where the plugin lacks
/// the function, and else the kind that the text of the engine's error
/// comes to. Of the four kinds only `PluginUnavailable` is reported as
/// unavailable; the others are internal.
pub proof fn lemma_failure_kind_reaches_the_caller(request: RequestView, message: Seq<char>)
    requires
        missing_field(request) is None,
    ensures
        answer(request, invocation_outcome_spec(None)) == Err::<ResponseView, ServiceError>(
            ServiceError::Invocation(InvocationError::UnknownMethod),
        ),
        answer(request, invocation_outcome_spec(Some(Err(message)))) == Err::<
            ResponseView,
            ServiceError,
        >(ServiceError::Invocation(failure_kind_spec(message))),
        forall|kind: InvocationError| #[trigger]
            ServiceError::Invocation(kind).kind_spec() == (if kind
                == InvocationError::PluginUnavailable {
                StatusKind::Unavailable
            } else {
                StatusKind::Internal
            }),
{
}

} // verus!
