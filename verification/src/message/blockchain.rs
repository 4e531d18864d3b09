//! The block handed to the plugin for execution.

use cita_cloud_proto::blockchain::RawTransactions;
use vstd::prelude::*;

verus! {

/// The transactions of a block, in the protocol crate's own representation.
/// The bridge carries them from the caller to the encoder and never looks
/// inside.
#[verifier::external_type_specification]
#[verifier::external_body]
pub struct ExRawTransactions(RawTransactions);

/// The header of a block.
#[derive(Clone, Debug, PartialEq, Eq)]
pub struct BlockHeader {
    pub prevhash: Vec<u8>,
    pub timestamp: u64,
    pub height: u64,
    pub transactions_root: Vec<u8>,
    pub proposer: Vec<u8>,
}

/// The view of a [`BlockHeader`].
pub ghost struct BlockHeaderView {
    pub prevhash: Seq<u8>,
    pub timestamp: u64,
    pub height: u64,
    pub transactions_root: Seq<u8>,
    pub proposer: Seq<u8>,
}

impl View for BlockHeader {
    type V = BlockHeaderView;

    open spec fn view(&self) -> BlockHeaderView {
        BlockHeaderView {
            prevhash: self.prevhash@,
            timestamp: self.timestamp,
            height: self.height,
            transactions_root: self.transactions_root@,
            proposer: self.proposer@,
        }
    }
}

/// A block to execute.
#[derive(Clone, Debug, PartialEq)]
pub struct Block {
    pub version: u32,
    pub header: Option<BlockHeader>,
    pub body: Option<RawTransactions>,
    pub proof: Vec<u8>,
    pub state_root: Vec<u8>,
}

/// The view of a [`Block`]. The transactions stay as they are.
pub ghost struct BlockView {
    pub version: u32,
    pub header: Option<BlockHeaderView>,
    pub body: Option<RawTransactions>,
    pub proof: Seq<u8>,
    pub state_root: Seq<u8>,
}

impl View for Block {
    type V = BlockView;

    open spec fn view(&self) -> BlockView {
        BlockView {
            version: self.version,
            header: match self.header {
                Some(header) => Some(header@),
                None => None,
            },
            body: self.body,
            proof: self.proof@,
            state_root: self.state_root@,
        }
    }
}

} // verus!
