//! Laws of the refund registry: only authorised contracts register refunds,
//! each registration adds one record with a fresh id, and the customer index
//! follows the records.

use vstd::prelude::*;

use crate::keys::Address;
use crate::refund::{customer_ids, registered_record, RefundError, RefundRecord, RefundRegistryView};

verus! {

/// A contract that is not an authorised origin can never register a refund.
pub proof fn law_unauthorised_origin_rejected(v: RefundRegistryView, origin: Address, amount: i128)
    requires
        !v.origins.contains(origin),
    ensures
        v.register_error(origin, amount) == Some(RefundError::OriginNotAuthorized),
{
}

/// A registration's id differs from every earlier record's id.
pub proof fn law_registered_ids_are_fresh(v: RefundRegistryView, i: int)
    requires
        v.wf(),
        0 <= i < v.records.len(),
    ensures
        v.records[i].id != v.records.len(),
{
}

/// Registering a refund appends its id to its customer's index and leaves
/// every other customer's index unchanged.
pub proof fn law_registration_extends_customer_index(
    v: RefundRegistryView,
    origin: Address,
    escrow_id: u32,
    customer: Address,
    merchant: Address,
    token: Address,
    amount: i128,
    reason_code: u32,
    other: Address,
)
    requires
        other != customer,
    ensures
        ({
            let r = registered_record(
                v.records.len() as u64,
                origin,
                escrow_id,
                customer,
                merchant,
                token,
                amount,
                reason_code,
            );
            let records: Seq<RefundRecord> = v.records.push(r);
            &&& customer_ids(records, customer) == customer_ids(v.records, customer).push(r.id)
            &&& customer_ids(records, other) == customer_ids(v.records, other)
        }),
{
    let r = registered_record(
        v.records.len() as u64,
        origin,
        escrow_id,
        customer,
        merchant,
        token,
        amount,
        reason_code,
    );
    assert(v.records.push(r).drop_last() =~= v.records);
}

} // verus!
