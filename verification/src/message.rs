//! The typed requests and responses of the service, as plain data.
//!
//! Each type has the fields of the protocol message of the same name, and a
//! view that replaces every `Vec` by a `Seq` and every `String` by a
//! `Seq<char>`. Contracts speak of the views.

pub mod blockchain;
pub mod common;
pub mod evm;
pub mod executor;
