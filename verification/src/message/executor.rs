//! Messages of the execution group.

use vstd::prelude::*;

verus! {

/// A read-only contract call.
#[derive(Clone, Debug, PartialEq, Eq)]
pub struct CallRequest {
    pub to: Vec<u8>,
    pub from: Vec<u8>,
    pub method: Vec<u8>,
    pub args: Vec<Vec<u8>>,
    pub height: u64,
}

/// The view of a [`CallRequest`].
pub ghost struct CallRequestView {
    pub to: Seq<u8>,
    pub from: Seq<u8>,
    pub method: Seq<u8>,
    pub args: Seq<Seq<u8>>,
    pub height: u64,
}

impl View for CallRequest {
    type V = CallRequestView;

    open spec fn view(&self) -> CallRequestView {
        CallRequestView {
            to: self.to@,
            from: self.from@,
            method: self.method@,
            args: self.args.deep_view(),
            height: self.height,
        }
    }
}

/// The value a contract call returned.
#[derive(Clone, Debug, PartialEq, Eq)]
pub struct CallResponse {
    pub value: Vec<u8>,
}

impl View for CallResponse {
    type V = Seq<u8>;

    open spec fn view(&self) -> Seq<u8> {
        self.value@
    }
}

} // verus!
