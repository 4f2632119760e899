//! The refund registry's cross-contract path: contracts that the admin has
//! authorised (such as an escrow) register refunds they have already paid
//! out, and the registry keeps the records, a queue of them, and an index by
//! customer.

use std::collections::HashSet;

use vstd::prelude::*;

use crate::keys::Address;
use crate::paging::{page, spec_page};

verus! {

broadcast use vstd::std_specs::hash::group_hash_axioms;

/// Where a refund record stands.
#[derive(Clone, Copy, Debug, PartialEq, Eq, Structural)]
pub enum RefundStatus {
    /// Paid out by the originating contract and registered here.
    CrossContractRefunded,
}

/// One registered refund.
#[derive(Clone, Copy, Debug, PartialEq, Eq, Structural)]
pub struct RefundRecord {
    pub id: u64,
    pub customer: Address,
    pub merchant: Address,
    pub token: Address,
    pub amount: i128,
    pub escrow_id: Option<u32>,
    pub status: RefundStatus,
    pub origin_contract: Option<Address>,
    pub reason_code: u32,
}

/// Why a refund-registry call was refused; a refused call changes nothing.
#[derive(Clone, Copy, Debug, PartialEq, Eq, Structural)]
pub enum RefundError {
    /// The caller is not the admin.
    Unauthorized,
    /// The calling contract is not an authorised refund origin.
    OriginNotAuthorized,
    /// Refund amounts must be positive.
    InvalidAmount,
}

/// The abstract state of the registry.
pub struct RefundRegistryView {
    pub admin: Address,
    pub origins: Set<Address>,
    pub records: Seq<RefundRecord>,
}

/// The ids of `customer`'s records, oldest first.
pub open spec fn customer_ids(records: Seq<RefundRecord>, customer: Address) -> Seq<u64>
    decreases records.len(),
{
    if records.len() == 0 {
        Seq::empty()
    } else {
        let rest = customer_ids(records.drop_last(), customer);
        if records.last().customer == customer {
            rest.push(records.last().id)
        } else {
            rest
        }
    }
}

/// The record that a registration creates.
pub open spec fn registered_record(
    id: u64,
    origin: Address,
    escrow_id: u32,
    customer: Address,
    merchant: Address,
    token: Address,
    amount: i128,
    reason_code: u32,
) -> RefundRecord {
    RefundRecord {
        id,
        customer,
        merchant,
        token,
        amount,
        escrow_id: Some(escrow_id),
        status: RefundStatus::CrossContractRefunded,
        origin_contract: Some(origin),
        reason_code,
    }
}

impl RefundRegistryView {
    /// Record ids are their positions.
    pub open spec fn wf(self) -> bool {
        forall|i: int| 0 <= i < self.records.len() ==> (#[trigger] self.records[i]).id == i
    }

    /// Why registering a refund of `amount` from `origin` is refused.
    pub open spec fn register_error(self, origin: Address, amount: i128) -> Option<RefundError> {
        if !self.origins.contains(origin) {
            Some(RefundError::OriginNotAuthorized)
        } else if amount <= 0 {
            Some(RefundError::InvalidAmount)
        } else {
            None
        }
    }
}

/// The refund registry contract state.
pub struct RefundRegistry {
    admin: Address,
    origins: HashSet<Address>,
    records: Vec<RefundRecord>,
}

impl View for RefundRegistry {
    type V = RefundRegistryView;

    closed spec fn view(&self) -> RefundRegistryView {
        RefundRegistryView { admin: self.admin, origins: self.origins@, records: self.records@ }
    }
}

impl RefundRegistry {
    /// An empty registry administered by `admin`, with no authorised origins.
    pub fn initialize(admin: Address) -> (r: RefundRegistry)
        ensures
            r@.wf(),
            r@.admin == admin,
            r@.origins == Set::<Address>::empty(),
            r@.records == Seq::<RefundRecord>::empty(),
    {
        RefundRegistry { admin, origins: HashSet::new(), records: Vec::new() }
    }

    /// Authorises contract `origin` to register refunds (admin only).
    pub fn add_refund_origin_contract(&mut self, caller: Address, origin: Address) -> (r: Result<(), RefundError>)
        requires
            old(self)@.wf(),
        ensures
            final(self)@.wf(),
            r is Ok <==> caller == old(self)@.admin,
            r is Ok ==> final(self)@ == (RefundRegistryView { origins: old(self)@.origins.insert(origin), ..old(self)@ }),
            r is Err ==> r == Err::<(), RefundError>(RefundError::Unauthorized) && final(self)@ == old(self)@,
    {
        if caller != self.admin {
            return Err(RefundError::Unauthorized);
        }
        self.origins.insert(origin);
        Ok(())
    }

    /// Withdraws `origin`'s authorisation (admin only).
    pub fn remove_refund_origin_contract(&mut self, caller: Address, origin: Address) -> (r: Result<(), RefundError>)
        requires
            old(self)@.wf(),
        ensures
            final(self)@.wf(),
            r is Ok <==> caller == old(self)@.admin,
            r is Ok ==> final(self)@ == (RefundRegistryView { origins: old(self)@.origins.remove(origin), ..old(self)@ }),
            r is Err ==> r == Err::<(), RefundError>(RefundError::Unauthorized) && final(self)@ == old(self)@,
    {
        if caller != self.admin {
            return Err(RefundError::Unauthorized);
        }
        self.origins.remove(&origin);
        Ok(())
    }

    /// Whether `origin` may register refunds.
    pub fn is_refund_origin_contract(&self, origin: Address) -> (b: bool)
        ensures
            b == self@.origins.contains(origin),
    {
        self.origins.contains(&origin)
    }

    /// Registers a refund already paid by authorised contract `origin` for
    /// its escrow `escrow_id`; returns the new record's id.
    pub fn register_cross_contract_refund(
        &mut self,
        origin: Address,
        escrow_id: u32,
        customer: Address,
        merchant: Address,
        token: Address,
        amount: i128,
        reason_code: u32,
    ) -> (r: Result<u64, RefundError>)
        requires
            old(self)@.wf(),
        ensures
            final(self)@.wf(),
            match r {
                Ok(id) => {
                    &&& old(self)@.register_error(origin, amount) is None
                    &&& id == old(self)@.records.len()
                    &&& final(self)@ == (RefundRegistryView {
                        records: old(self)@.records.push(
                            registered_record(id, origin, escrow_id, customer, merchant, token, amount, reason_code),
                        ),
                        ..old(self)@
                    })
                },
                Err(e) => old(self)@.register_error(origin, amount) == Some(e) && final(self)@ == old(self)@,
            },
    {
        if !self.origins.contains(&origin) {
            return Err(RefundError::OriginNotAuthorized);
        }
        if amount <= 0 {
            return Err(RefundError::InvalidAmount);
        }
        let id = self.records.len() as u64;
        let rec = RefundRecord {
            id,
            customer,
            merchant,
            token,
            amount,
            escrow_id: Some(escrow_id),
            status: RefundStatus::CrossContractRefunded,
            origin_contract: Some(origin),
            reason_code,
        };
        let ghost before = self@;
        self.records.push(rec);
        proof {
            assert forall|i: int| 0 <= i < self@.records.len() implies (#[trigger] self@.records[i]).id
                == i by {
                if i < before.records.len() {
                    assert(self@.records[i] == before.records[i]);
                }
            }
        }
        Ok(id)
    }

    /// The record with id `id`, if any.
    pub fn get_refund(&self, id: u64) -> (rec: Option<RefundRecord>)
        ensures
            rec == (if id < self@.records.len() {
                Some(self@.records[id as int])
            } else {
                None
            }),
    {
        if id < self.records.len() as u64 {
            Some(self.records[id as usize])
        } else {
            None
        }
    }

    /// A page of the cross-contract refund queue (oldest first), the queue's
    /// length, and whether records follow the page.
    pub fn get_cross_contract_refund_queue(&self, offset: u32, limit: u32) -> (q: (
        Vec<RefundRecord>,
        u64,
        bool,
    ))
        ensures
            q.0@ == spec_page(self@.records, offset as int, limit as int),
            q.1 == self@.records.len(),
            q.2 == (offset + q.0@.len() < self@.records.len()),
    {
        let p = page(&self.records, offset, limit);
        let total = self.records.len() as u64;
        let more = (offset as u64) + (p.len() as u64) < total;
        (p, total, more)
    }

    /// A page of the ids of `customer`'s refunds, oldest first.
    pub fn get_refunds_by_customer(&self, customer: Address, limit: u32, offset: u32) -> (ids: Vec<u64>)
        ensures
            ids@ == spec_page(customer_ids(self@.records, customer), offset as int, limit as int),
    {
        let n = self.records.len();
        let mut all: Vec<u64> = Vec::new();
        let mut i: usize = 0;
        while i < n
            invariant
                n == self@.records.len(),
                i <= n,
                all@ == customer_ids(self@.records.subrange(0, i as int), customer),
            decreases n - i,
        {
            let rec = self.records[i];
            proof {
                let pre = self@.records.subrange(0, i as int);
                let post = self@.records.subrange(0, i as int + 1);
                assert(post.drop_last() =~= pre);
                assert(post.last() == rec);
            }
            if rec.customer == customer {
                all.push(rec.id);
            }
            i += 1;
        }
        proof {
            assert(self@.records.subrange(0, n as int) =~= self@.records);
        }
        page(&all, offset, limit)
    }
}

} // verus!
