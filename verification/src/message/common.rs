//! Messages shared by the execution and the query group.

use vstd::prelude::*;

verus! {

/// An account address.
#[derive(Clone, Debug, PartialEq, Eq)]
pub struct Address {
    pub address: Vec<u8>,
}

impl View for Address {
    type V = Seq<u8>;

    open spec fn view(&self) -> Seq<u8> {
        self.address@
    }
}

/// A hash: of a transaction, or the content of a storage slot.
#[derive(Clone, Debug, PartialEq, Eq)]
pub struct Hash {
    pub hash: Vec<u8>,
}

impl View for Hash {
    type V = Seq<u8>;

    open spec fn view(&self) -> Seq<u8> {
        self.hash@
    }
}

/// The numeric status that accompanies a response.
#[derive(Clone, Copy, Debug, PartialEq, Eq)]
pub struct StatusCode {
    pub code: u32,
}

impl View for StatusCode {
    type V = u32;

    open spec fn view(&self) -> u32 {
        self.code
    }
}

/// The answer to a block execution: a status and the resulting hash.
#[derive(Clone, Debug, PartialEq, Eq)]
pub struct HashResponse {
    pub status: Option<StatusCode>,
    pub hash: Option<Hash>,
}

/// The view of a [`HashResponse`].
pub ghost struct HashResponseView {
    pub status: Option<u32>,
    pub hash: Option<Seq<u8>>,
}

impl View for HashResponse {
    type V = HashResponseView;

    open spec fn view(&self) -> HashResponseView {
        HashResponseView {
            status: match self.status {
                Some(status) => Some(status@),
                None => None,
            },
            hash: match self.hash {
                Some(hash) => Some(hash@),
                None => None,
            },
        }
    }
}

} // verus!
