use executor_bridge::error::InvocationError;
use executor_bridge::executor_server::ExecutorServer;
use executor_bridge::message::common::HashResponse;
use executor_bridge::message::blockchain::Block;
use executor_bridge::method::Method;
use executor_bridge::runtime::{call_outcome, failure_kind, invocation_outcome, invoke};
use std::sync::Arc;

/// A plugin whose `exec` reports to the host twice and returns without
/// output; `call` returns its input with every byte incremented by one;
/// `get_code` traps; `get_abi` has a signature the engine cannot call;
/// `get_balance` reports the error "no!" and exits with -1, as a function
/// built with the plugin development kit does when it fails;
/// `get_transaction_count` exits with 3 and reports nothing.
const PLUGIN: &str = r#"(module
  (import "extism:host/env" "input_length" (func $input_length (result i64)))
  (import "extism:host/env" "input_load_u8" (func $input_load_u8 (param i64) (result i32)))
  (import "extism:host/env" "alloc" (func $alloc (param i64) (result i64)))
  (import "extism:host/env" "store_u8" (func $store_u8 (param i64 i32)))
  (import "extism:host/env" "output_set" (func $output_set (param i64 i64)))
  (import "extism:host/env" "error_set" (func $error_set (param i64)))
  (import "extism:host/user" "mark" (func $mark (param i64)))
  (func (export "exec") (result i32)
    (call $mark (i64.const 1))
    (call $mark (i64.const 2))
    (i32.const 0))
  (func (export "get_balance") (result i32)
    (local $text i64)
    (local.set $text (call $alloc (i64.const 3)))
    (call $store_u8 (local.get $text) (i32.const 110))
    (call $store_u8 (i64.add (local.get $text) (i64.const 1)) (i32.const 111))
    (call $store_u8 (i64.add (local.get $text) (i64.const 2)) (i32.const 33))
    (call $error_set (local.get $text))
    (i32.const -1))
  (func (export "get_transaction_count") (result i32)
    (i32.const 3))
  (func (export "call") (result i32)
    (local $len i64) (local $out i64) (local $i i64)
    (local.set $len (call $input_length))
    (local.set $out (call $alloc (local.get $len)))
    (block $done
      (loop $next
        (br_if $done (i64.ge_u (local.get $i) (local.get $len)))
        (call $store_u8
          (i64.add (local.get $out) (local.get $i))
          (i32.add (call $input_load_u8 (local.get $i)) (i32.const 1)))
        (local.set $i (i64.add (local.get $i) (i64.const 1)))
        (br $next)))
    (call $output_set (local.get $out) (local.get $len))
    (i32.const 0))
  (func (export "get_code") (result i32)
    (unreachable))
  (func (export "get_abi") (param i32) (result i32)
    (local.get 0))
)
"#;

fn shared_plugin() -> (Arc<parking_lot::RwLock<extism::Plugin>>, extism::UserData<Vec<i64>>) {
    let marks: extism::UserData<Vec<i64>> = extism::UserData::new(Vec::new());
    let mark = extism::Function::new(
        "mark",
        [extism::ValType::I64],
        [],
        marks.clone(),
        |_plugin, inputs, _outputs, marks| {
            marks.get()?.lock().unwrap().push(inputs[0].unwrap_i64());
            Ok(())
        },
    );
    let mut config = wasmtime::Config::new();
    config.memory_reservation(0);
    config.memory_reservation_for_growth(1 << 20);
    config.memory_guard_size(0);
    let plugin = extism::PluginBuilder::new(PLUGIN)
        .with_functions([mark])
        .with_wasmtime_config(config)
        .with_cache_disabled()
        .build()
        .unwrap();
    (Arc::new(parking_lot::RwLock::new(plugin)), marks)
}

#[test]
fn invoke_returns_the_output_bytes_untouched() {
    let (runtime, _marks) = shared_plugin();
    assert_eq!(invoke(&runtime, Method::Call, vec![0, 1, 0xfe]), Ok(vec![1, 2, 0xff]));
    assert_eq!(invoke(&runtime, Method::Call, vec![]), Ok(vec![]));
    let long: Vec<u8> = (0..2000).map(|i| (i % 200) as u8).collect();
    let expected: Vec<u8> = long.iter().map(|byte| byte + 1).collect();
    assert_eq!(invoke(&runtime, Method::Call, long), Ok(expected));
}

#[test]
fn invoke_selects_the_function_by_the_name_of_the_method() {
    let (runtime, marks) = shared_plugin();
    assert_eq!(invoke(&runtime, Method::Exec, vec![9]), Ok(vec![]));
    assert_eq!(marks.get().unwrap().lock().unwrap().clone(), vec![1, 2]);
    assert_eq!(invoke(&runtime, Method::Call, vec![9]), Ok(vec![10]));
    assert_eq!(marks.get().unwrap().lock().unwrap().clone(), vec![1, 2]);
}

#[test]
fn invoke_of_a_missing_function_is_unknown_method() {
    let (runtime, _marks) = shared_plugin();
    for method in [
        Method::GetTransactionReceipt,
        Method::EstimateQuota,
        Method::GetReceiptProof,
        Method::GetRootsInfo,
        Method::GetStorageAt,
    ] {
        assert_eq!(invoke(&runtime, method, vec![1]), Err(InvocationError::UnknownMethod));
    }
}

#[test]
fn invoke_of_a_function_that_takes_parameters_is_unknown_method() {
    let (runtime, _marks) = shared_plugin();
    assert_eq!(invoke(&runtime, Method::GetAbi, vec![1]), Err(InvocationError::UnknownMethod));
}

#[test]
fn invoke_of_a_trapping_function_is_execution_failure() {
    let (runtime, _marks) = shared_plugin();
    assert_eq!(
        invoke(&runtime, Method::GetCode, vec![1]),
        Err(InvocationError::PluginExecutionFailure)
    );
    assert_eq!(invoke(&runtime, Method::Call, vec![1]), Ok(vec![2]));
}

#[test]
fn invoke_of_a_function_that_reports_an_error_is_execution_failure() {
    let (runtime, _marks) = shared_plugin();
    assert_eq!(
        invoke(&runtime, Method::GetBalance, vec![1]),
        Err(InvocationError::PluginExecutionFailure)
    );
    assert_eq!(invoke(&runtime, Method::Call, vec![1]), Ok(vec![2]));
}

#[test]
fn invoke_of_a_function_that_exits_with_a_code_is_execution_failure() {
    let (runtime, _marks) = shared_plugin();
    assert_eq!(
        invoke(&runtime, Method::GetTransactionCount, vec![1]),
        Err(InvocationError::PluginExecutionFailure)
    );
}

#[test]
fn failure_kind_of_an_engine_that_cannot_be_entered_is_unavailable() {
    for text in [
        "cannot make reentrant calls into plugin",
        "instance lock was poisoned; previous thread panicked while calling into wasm",
    ] {
        assert_eq!(failure_kind(text), InvocationError::PluginUnavailable);
    }
}

#[test]
fn failure_kind_of_output_that_cannot_be_read_is_no_output() {
    for text in [
        "unable to set output",
        "unable to set output length",
        "call to set extism output offset failed",
        "call to set extism output length failed",
        "0b0f8a4e-6d2c-4f0e-9d53-5a1c3a7e2b11 unable to locate extism memory",
        " unable to locate extism memory",
    ] {
        assert_eq!(failure_kind(text), InvocationError::NoOutput);
    }
}

#[test]
fn failure_kind_of_any_other_text_is_execution_failure() {
    for text in [
        "",
        "timeout",
        "oom",
        "plugin ran out of fuel",
        "Returned non-zero exit code: 3",
        "Function not found: exec",
        "wasm trap: wasm `unreachable` instruction executed",
        "no!",
        "unable to set outputs",
        "Unable to set output",
        "unable to set output ",
        "cannot make reentrant calls into plugin.",
        "unable to locate extism memory",
        "0b0f8a4e unable to locate extism memory!",
        "instance lock was poisoned",
        "\u{e9}chec de l'ex\u{e9}cution",
    ] {
        assert_eq!(failure_kind(text), InvocationError::PluginExecutionFailure);
    }
}

#[test]
fn invocation_outcome_gives_each_answer_of_the_engine_its_own_kind() {
    assert_eq!(invocation_outcome(None), Err(InvocationError::UnknownMethod));
    assert_eq!(invocation_outcome(Some(Ok(vec![4, 5]))), Ok(vec![4, 5]));
    assert_eq!(invocation_outcome(Some(Ok(vec![]))), Ok(vec![]));
    assert_eq!(
        invocation_outcome(Some(Err(String::from("wasm trap: out of bounds memory access")))),
        Err(InvocationError::PluginExecutionFailure)
    );
    assert_eq!(
        invocation_outcome(Some(Err(String::from("cannot make reentrant calls into plugin")))),
        Err(InvocationError::PluginUnavailable)
    );
    assert_eq!(
        invocation_outcome(Some(Err(String::from("unable to set output")))),
        Err(InvocationError::NoOutput)
    );
}

#[test]
fn call_outcome_keeps_bytes_and_tells_the_failures_apart() {
    assert_eq!(call_outcome(Ok(vec![1, 2, 3])), Ok(vec![1, 2, 3]));
    assert_eq!(call_outcome(Ok(vec![])), Ok(vec![]));
    assert_eq!(
        call_outcome(Err(String::from("timeout"))),
        Err(InvocationError::PluginExecutionFailure)
    );
    assert_eq!(
        call_outcome(Err(String::from(
            "instance lock was poisoned; previous thread panicked while calling into wasm"
        ))),
        Err(InvocationError::PluginUnavailable)
    );
    assert_eq!(
        call_outcome(Err(String::from("call to set extism output length failed"))),
        Err(InvocationError::NoOutput)
    );
}

#[test]
fn the_engine_words_its_own_failures_as_the_bridge_expects() {
    // The text of an error is what its `Display` gives: the message of a
    // plain error, and the context of one that was given a context.
    let error = extism::Error::msg("cannot make reentrant calls into plugin");
    assert_eq!(failure_kind(&error.to_string()), InvocationError::PluginUnavailable);
    let error = extism::Error::msg("failed").context("call to set extism output offset failed");
    assert_eq!(failure_kind(&error.to_string()), InvocationError::NoOutput);
}

/// A plugin whose functions ask the host, while they run, whether the
/// lock round the engine is taken.
const WATCHED: &str = r#"(module
  (import "extism:host/user" "watch" (func $watch))
  (func (export "exec") (result i32)
    (call $watch)
    (i32.const 0))
  (func (export "call") (result i32)
    (call $watch)
    (unreachable))
)
"#;

/// What the host saw of the lock from inside a call.
struct Watch {
    runtime: std::sync::Weak<parking_lot::RwLock<extism::Plugin>>,
    writer_let_in: Vec<bool>,
    reader_let_in: Vec<bool>,
}

#[test]
fn the_engine_is_locked_for_the_length_of_a_call_and_no_longer() {
    let watch = extism::UserData::new(Watch {
        runtime: std::sync::Weak::new(),
        writer_let_in: Vec::new(),
        reader_let_in: Vec::new(),
    });
    let function = extism::Function::new(
        "watch",
        [],
        [],
        watch.clone(),
        |_plugin, _inputs, _outputs, watch| {
            let watch = watch.get()?;
            let mut watch = watch.lock().unwrap();
            let runtime = watch.runtime.upgrade().unwrap();
            let writer = runtime.try_write().is_some();
            let reader = runtime.try_read().is_some();
            watch.writer_let_in.push(writer);
            watch.reader_let_in.push(reader);
            Ok(())
        },
    );
    let mut config = wasmtime::Config::new();
    config.memory_reservation(0);
    config.memory_reservation_for_growth(1 << 20);
    config.memory_guard_size(0);
    let plugin = extism::PluginBuilder::new(WATCHED)
        .with_functions([function])
        .with_wasmtime_config(config)
        .with_cache_disabled()
        .build()
        .unwrap();
    let runtime = Arc::new(parking_lot::RwLock::new(plugin));
    watch.get().unwrap().lock().unwrap().runtime = Arc::downgrade(&runtime);
    let server = ExecutorServer { wasm_runtime: runtime.clone() };

    assert!(runtime.try_write().is_some());
    let block = Block { version: 0, header: None, body: None, proof: vec![], state_root: vec![] };
    assert_eq!(server.exec(block), Ok(HashResponse { status: None, hash: None }));
    assert!(runtime.try_write().is_some());

    assert_eq!(
        invoke(&runtime, Method::Call, vec![]),
        Err(InvocationError::PluginExecutionFailure)
    );
    assert!(runtime.try_write().is_some());

    assert_eq!(invoke(&runtime, Method::GetCode, vec![]), Err(InvocationError::UnknownMethod));
    assert!(runtime.try_write().is_some());

    let watch = watch.get().unwrap();
    let watch = watch.lock().unwrap();
    assert_eq!(watch.writer_let_in, vec![false, false]);
    assert_eq!(watch.reader_let_in, vec![false, false]);
}
