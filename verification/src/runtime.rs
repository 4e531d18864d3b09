//! The plugin runtime handle: one sandboxed engine behind a lock.
//!
//! The engine is an `extism::Plugin`, shared as `Arc<RwLock<Plugin>>`. Every
//! access goes through the two trusted functions at the end of this file.
//! Each takes the lock for the length of one call into the engine and gives
//! it up when the call is over, however it ends: the guard is dropped on
//! every path out. The handle never looks at the bytes it carries.
//!
//! The engine reports every failed call with an error of one type, whose
//! only content is a text. [`failure_kind`] reads the kind of the failure
//! off that text, by the texts that this version of the engine uses for its
//! own failures; a text it does not know is the plugin's.

use crate::error::InvocationError;
use crate::method::Method;
use extism::Plugin;
use parking_lot::RwLock;
use std::sync::Arc;
use vstd::prelude::*;

verus! {

/// The sandboxed engine.
#[verifier::external_type_specification]
#[verifier::external_body]
pub struct ExPlugin(Plugin);

/// The raw lock under the reader-writer lock of `parking_lot`.
#[verifier::external_type_specification]
#[verifier::external_body]
pub struct ExRawRwLock<const RECURSIVE: bool>(parking_lot::RawRwLock<RECURSIVE>);

/// The reader-writer lock that guards the engine.
#[verifier::external_type_specification]
#[verifier::external_body]
#[verifier::reject_recursive_types(R)]
#[verifier::reject_recursive_types(T)]
pub struct ExRwLock<R, T: ?Sized>(parking_lot::lock_api::RwLock<R, T>);

/// The bytes of an outcome, as a sequence.
pub open spec fn outcome_view(outcome: Result<Vec<u8>, InvocationError>) -> Result<
    Seq<u8>,
    InvocationError,
> {
    match outcome {
        Ok(bytes) => Ok(bytes@),
        Err(error) => Err(error),
    }
}

/// The text of the failure that a call into the engine returned, as a
/// sequence, beside the bytes of a success.
pub open spec fn returned_view(returned: Result<Vec<u8>, String>) -> Result<Seq<u8>, Seq<char>> {
    match returned {
        Ok(bytes) => Ok(bytes@),
        Err(message) => Err(message@),
    }
}

/// The view of what the engine answered to an invocation.
pub open spec fn answer_view(answer: Option<Result<Vec<u8>, String>>) -> Option<
    Result<Seq<u8>, Seq<char>>,
> {
    match answer {
        Some(returned) => Some(returned_view(returned)),
        None => None,
    }
}

/// Whether `message` is one of the two with which the engine refuses a
/// call before it enters the plugin's instance: the instance is held by a
/// call that is still running, or a call into it has panicked.
pub open spec fn says_not_entered(message: Seq<char>) -> bool {
    ||| message == "cannot make reentrant calls into plugin"@
    ||| message
        == "instance lock was poisoned; previous thread panicked while calling into wasm"@
}

/// Whether `message` is one of those with which the engine reports, after
/// the plugin function has returned, that it cannot find or read the
/// output. The last of them comes with the plugin's identifier in front.
pub open spec fn says_no_output(message: Seq<char>) -> bool {
    ||| message == "unable to set output"@
    ||| message == "unable to set output length"@
    ||| message == "call to set extism output offset failed"@
    ||| message == "call to set extism output length failed"@
    ||| ends_with(message, " unable to locate extism memory"@)
}

/// Whether `text` ends with `tail`.
pub open spec fn ends_with(text: Seq<char>, tail: Seq<char>) -> bool {
    tail.len() <= text.len() && text.subrange(text.len() - tail.len(), text.len() as int) == tail
}

/// The kind of a failed call, from the text of the engine's error. The
/// engine has one error type for every failure and tells them apart by
/// their text alone: an instance that could not be entered is
/// `PluginUnavailable`, output that could not be read is `NoOutput`, and
/// everything else is a failure of the plugin's own run, a trap, an exit
/// code other than zero, an error it reported, a time limit:
/// `PluginExecutionFailure`.
///
/// The text of an error that the plugin reports is the plugin's to choose:
/// one that reports a text of the engine's is taken at its word. The exit
/// code would not tell more: functions built with the plugin development
/// kit exit with -1 when they fail, which is also the code the engine gives
/// where it has none from the plugin.
pub open spec fn failure_kind_spec(message: Seq<char>) -> InvocationError {
    if says_not_entered(message) {
        InvocationError::PluginUnavailable
    } else if says_no_output(message) {
        InvocationError::NoOutput
    } else {
        InvocationError::PluginExecutionFailure
    }
}

/// What an invocation comes to, from what the engine answered: `None` where
/// the plugin exports no function of the method's name, else what the call
/// returned.
pub open spec fn invocation_outcome_spec(answer: Option<Result<Seq<u8>, Seq<char>>>) -> Result<
    Seq<u8>,
    InvocationError,
> {
    match answer {
        None => Err(InvocationError::UnknownMethod),
        Some(Ok(bytes)) => Ok(bytes),
        Some(Err(message)) => Err(failure_kind_spec(message)),
    }
}

/// Whether `text` is, letter for letter, `pattern`.
fn is_text(text: &str, pattern: &str) -> (same: bool)
    ensures
        same == (text@ == pattern@),
{
    text.to_owned() == pattern.to_owned()
}

/// Whether `text` ends with `tail`.
fn has_tail(text: &str, tail: &str) -> (found: bool)
    ensures
        found == ends_with(text@, tail@),
{
    let length = text.unicode_len();
    let tail_length = tail.unicode_len();
    if tail_length <= length {
        is_text(text.substring_char(length - tail_length, length), tail)
    } else {
        false
    }
}

/// Returns the kind of a failed call, from the text of the engine's error.
pub fn failure_kind(message: &str) -> (kind: InvocationError)
    ensures
        kind == failure_kind_spec(message@),
{
    if is_text(message, "cannot make reentrant calls into plugin") || is_text(
        message,
        "instance lock was poisoned; previous thread panicked while calling into wasm",
    ) {
        InvocationError::PluginUnavailable
    } else if is_text(message, "unable to set output") || is_text(
        message,
        "unable to set output length",
    ) || is_text(message, "call to set extism output offset failed") || is_text(
        message,
        "call to set extism output length failed",
    ) || has_tail(message, " unable to locate extism memory") {
        InvocationError::NoOutput
    } else {
        InvocationError::PluginExecutionFailure
    }
}

/// What a call into the engine comes to: its output bytes, untouched, or
/// the kind of its failure.
pub fn call_outcome(returned: Result<Vec<u8>, String>) -> (outcome: Result<
    Vec<u8>,
    InvocationError,
>)
    ensures
        match returned {
            Ok(bytes) => outcome == Ok::<Vec<u8>, InvocationError>(bytes),
            Err(message) => outcome == Err::<Vec<u8>, InvocationError>(
                failure_kind_spec(message@),
            ),
        },
{
    match returned {
        Ok(bytes) => Ok(bytes),
        Err(message) => Err(failure_kind(message.as_str())),
    }
}

/// Invokes the function that the plugin exports for `method` on `input` and
/// returns its output bytes.
///
/// Where the plugin exports no such function the engine is not entered and
/// the result is `UnknownMethod`. Otherwise the function is called once,
/// under the name of `method` and on `input` as it is, while no other call
/// is inside the engine. What the engine answers is decided by the plugin
/// and its state, so nothing is promised of the outcome but that it is what
/// [`invocation_outcome`] makes of that answer: every outcome can come.
///
/// The call waits until the engine is free and then runs to its end. The
/// bridge sets no time limit: a plugin function that never returns keeps
/// this call and every later one waiting. A host function of the plugin
/// must not call back into the same handle, which would wait for itself.
pub fn invoke(wasm_runtime: &Arc<RwLock<Plugin>>, method: Method, input: Vec<u8>) -> (outcome:
    Result<Vec<u8>, InvocationError>)
    ensures
        exists|answer: Option<Result<Seq<u8>, Seq<char>>>|
            outcome_view(outcome) == #[trigger] invocation_outcome_spec(answer),
{
    let name = method.name();
    let answer = if plugin_exports(wasm_runtime, name) {
        Some(plugin_call(wasm_runtime, name, input))
    } else {
        None
    };
    let outcome = invocation_outcome(answer);
    assert(outcome_view(outcome) == invocation_outcome_spec(answer_view(answer)));
    outcome
}

/// What an invocation comes to, from what the engine answered. `None` says
/// that the plugin exports no function of the method's name, so that no call
/// was made: that is `UnknownMethod`. `Some` holds what the call returned,
/// and comes to what [`call_outcome`] makes of it.
pub fn invocation_outcome(answer: Option<Result<Vec<u8>, String>>) -> (outcome: Result<
    Vec<u8>,
    InvocationError,
>)
    ensures
        match answer {
            None => outcome == Err::<Vec<u8>, InvocationError>(InvocationError::UnknownMethod),
            Some(Ok(bytes)) => outcome == Ok::<Vec<u8>, InvocationError>(bytes),
            Some(Err(message)) => outcome == Err::<Vec<u8>, InvocationError>(
                failure_kind_spec(message@),
            ),
        },
        outcome_view(outcome) == invocation_outcome_spec(answer_view(answer)),
{
    match answer {
        None => Err(InvocationError::UnknownMethod),
        Some(returned) => call_outcome(returned),
    }
}

/// Takes the lock for reading with `RwLock::read` of `parking_lot`, asks
/// `extism::Plugin::function_exists` whether the plugin's main module
/// exports a function named `name` that the engine can call, and gives the
/// lock up. Trusted; nothing is claimed of the answer, which depends on the
/// plugin.
#[verifier::external_body]
fn plugin_exports(wasm_runtime: &Arc<RwLock<Plugin>>, name: &str) -> (exported: bool) {
    wasm_runtime.read().function_exists(name)
}

/// Takes the lock for writing with `RwLock::write` of `parking_lot`, calls
/// `extism::Plugin::call` with `name` and `input`, asking for the output as
/// bytes, and gives the lock up when the call has returned. An error of the
/// engine is handed out as its text, which `Display` gives. Trusted;
/// nothing is claimed of what comes back, which depends on the plugin and
/// its state.
#[verifier::external_body]
fn plugin_call(wasm_runtime: &Arc<RwLock<Plugin>>, name: &str, input: Vec<u8>) -> (returned:
    Result<Vec<u8>, String>) {
    match wasm_runtime.write().call::<Vec<u8>, Vec<u8>>(name, input) {
        Ok(bytes) => Ok(bytes),
        Err(error) => Err(error.to_string()),
    }
}

} // verus!
