//! The request validator: which fields a request must carry.
//!
//! The four account queries must name an address and a block; a storage
//! query must name a position as well. The other requests have no optional
//! field that the bridge insists on. Fields are looked at in the order
//! address, position, block: the first one absent is the one reported.

use crate::error::MissingField;
use crate::message::evm::AccountQueryView;
use crate::request::Request;
use crate::request::RequestView;
use vstd::prelude::*;

verus! {

/// Whether `request` is of a kind that must carry `field` and does not.
pub open spec fn absent(request: RequestView, field: MissingField) -> bool {
    match request {
        RequestView::GetCode(query) => absent_in_query(query, field),
        RequestView::GetBalance(query) => absent_in_query(query, field),
        RequestView::GetTransactionCount(query) => absent_in_query(query, field),
        RequestView::GetAbi(query) => absent_in_query(query, field),
        RequestView::GetStorageAt(query) => match field {
            MissingField::Address => query.address is None,
            MissingField::Position => query.position is None,
            MissingField::BlockNumber => query.block_number is None,
        },
        _ => false,
    }
}

/// Whether an account query lacks `field`. It has no position to lack.
pub open spec fn absent_in_query(query: AccountQueryView, field: MissingField) -> bool {
    match field {
        MissingField::Address => query.address is None,
        MissingField::Position => false,
        MissingField::BlockNumber => query.block_number is None,
    }
}

/// The first required field that `request` lacks, if it lacks any.
pub open spec fn missing_field(request: RequestView) -> Option<MissingField> {
    if absent(request, MissingField::Address) {
        Some(MissingField::Address)
    } else if absent(request, MissingField::Position) {
        Some(MissingField::Position)
    } else if absent(request, MissingField::BlockNumber) {
        Some(MissingField::BlockNumber)
    } else {
        None
    }
}

/// Checks that `request` carries every field its method requires. Returns
/// the first absent one as the error, and `Ok` exactly when none is absent.
pub fn validate(request: &Request) -> (result: Result<(), MissingField>)
    ensures
        match result {
            Ok(_) => missing_field(request@) is None,
            Err(field) => missing_field(request@) == Some(field),
        },
{
    match request {
        Request::GetCode(query) => check_query(
            query.address.is_none(),
            query.block_number.is_none(),
        ),
        Request::GetBalance(query) => check_query(
            query.address.is_none(),
            query.block_number.is_none(),
        ),
        Request::GetTransactionCount(query) => check_query(
            query.address.is_none(),
            query.block_number.is_none(),
        ),
        Request::GetAbi(query) => check_query(
            query.address.is_none(),
            query.block_number.is_none(),
        ),
        Request::GetStorageAt(query) => {
            if query.address.is_none() {
                Err(MissingField::Address)
            } else if query.position.is_none() {
                Err(MissingField::Position)
            } else if query.block_number.is_none() {
                Err(MissingField::BlockNumber)
            } else {
                Ok(())
            }
        },
        _ => Ok(()),
    }
}

/// The verdict on an account query, from which of its two fields are absent.
fn check_query(no_address: bool, no_block_number: bool) -> (result: Result<(), MissingField>)
    ensures
        result == (if no_address {
            Err::<(), MissingField>(MissingField::Address)
        } else if no_block_number {
            Err(MissingField::BlockNumber)
        } else {
            Ok(())
        }),
{
    if no_address {
        Err(MissingField::Address)
    } else if no_block_number {
        Err(MissingField::BlockNumber)
    } else {
        Ok(())
    }
}

} // verus!
