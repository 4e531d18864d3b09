//! A bridge that serves the methods of a blockchain executor from a
//! sandboxed plugin.
//!
//! The service has eleven methods: block execution and contract call, and
//! nine queries of accounts, receipts, proofs and roots. None of them is
//! computed here. For each call the bridge validates the request, encodes
//! it, invokes the plugin function of the method's name on the bytes,
//! decodes the output and returns the response or the failure.
//!
//! - [`message`] holds the typed requests and responses, [`request`] joins
//!   each with its method, and [`method`] names the methods.
//! - [`validator`] says which fields a request must carry.
//! - [`codec`] turns requests into bytes and bytes into responses.
//! - [`runtime`] is the handle on the one plugin instance: a single
//!   operation from a method and input bytes to output bytes, one caller at
//!   a time.
//! - [`executor_server`] is the service itself, one handler a method.
//! - [`error`] lists the failures and the status each is reported under.
//! - [`laws`] states what holds of the bridge whatever the plugin does.
//! - [`plugin`] holds the answers of a placeholder plugin.
//!
//! The codec and the engine are outside crates. Verified code reaches them
//! through a few trusted functions, each documented where it stands, and
//! knows of them only what those functions' contracts say.

pub mod codec;
pub mod error;
pub mod executor_server;
pub mod laws;
pub mod message;
pub mod method;
pub mod plugin;
pub mod request;
pub mod runtime;
pub mod validator;
