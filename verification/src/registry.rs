//! The registry core: the authoritative model of the stored records and the
//! state transitions on them.
//!
//! Every operation is one complete load-validate-mutate-persist cycle: it
//! validates authorization and preconditions against the current records,
//! then either applies the whole mutation and appends its notifications, or
//! fails and leaves the state exactly as it was. The meaning of each
//! operation is stated once, as a spec-level transition on [`LedgerView`],
//! and each executable operation is proved to perform exactly that
//! transition.

use vstd::prelude::*;
use crate::records::{Error, EscrowRecord, EscrowStatus, Event, LeaseRecord, PropertyRecord};
use crate::store::Store;

verus! {

/// The abstract state of the ledger: the records each id maps to, and the
/// notifications emitted so far, in order.
#[verifier::ext_equal]
pub struct LedgerView {
    pub properties: Map<u64, PropertyRecord>,
    pub leases: Map<u64, LeaseRecord>,
    pub escrows: Map<u64, EscrowRecord>,
    pub events: Seq<Event>,
}

/// Registration unconditionally creates or replaces the record for
/// `property_id` — re-registration silently replaces owner and metadata —
/// and emits a registration notification.
pub open spec fn register_property_post(
    pre: LedgerView,
    property_id: u64,
    owner: u64,
    metadata: u64,
) -> LedgerView {
    LedgerView {
        properties: pre.properties.insert(property_id, PropertyRecord { owner, metadata }),
        events: pre.events.push(Event::PropertyRegistered { property_id, owner, metadata }),
        ..pre
    }
}

/// A transfer is allowed exactly when the property exists and the invoker is
/// its currently stored owner.
pub open spec fn transfer_allowed(pre: LedgerView, invoker: u64, property_id: u64) -> bool {
    &&& pre.properties.contains_key(property_id)
    &&& pre.properties[property_id].owner == invoker
}

/// A successful transfer replaces the owner, preserves the metadata, and
/// emits a transfer notification carrying the old and new owner.
pub open spec fn transfer_post(pre: LedgerView, property_id: u64, new_owner: u64) -> LedgerView {
    LedgerView {
        properties: pre.properties.insert(
            property_id,
            PropertyRecord { owner: new_owner, metadata: pre.properties[property_id].metadata },
        ),
        events: pre.events.push(
            Event::PropertyTransferred {
                property_id,
                old_owner: pre.properties[property_id].owner,
                new_owner,
            },
        ),
        ..pre
    }
}

/// Lease creation unconditionally creates or replaces the record with
/// `active` set, and emits a creation notification. It deliberately does not
/// validate that the property exists, that the timestamps are ordered, or
/// that the rent is non-negative.
pub open spec fn create_lease_post(
    pre: LedgerView,
    lease_id: u64,
    property_id: u64,
    tenant: u64,
    start_ts: i64,
    end_ts: i64,
    rent: i64,
) -> LedgerView {
    LedgerView {
        leases: pre.leases.insert(
            lease_id,
            LeaseRecord { property_id, tenant, start_ts, end_ts, rent, active: true },
        ),
        events: pre.events.push(
            Event::LeaseCreated { lease_id, property_id, tenant, start_ts, end_ts, rent },
        ),
        ..pre
    }
}

/// Ending a lease is allowed exactly when the lease exists, its referenced
/// property exists, and the invoker is the lease's tenant or the property's
/// current owner. An already-inactive lease may be ended again.
pub open spec fn end_lease_allowed(pre: LedgerView, invoker: u64, lease_id: u64) -> bool {
    &&& pre.leases.contains_key(lease_id)
    &&& pre.properties.contains_key(pre.leases[lease_id].property_id)
    &&& (invoker == pre.leases[lease_id].tenant
        || invoker == pre.properties[pre.leases[lease_id].property_id].owner)
}

/// A successful termination clears the active flag, preserves every other
/// field, and emits a termination notification carrying the lease id alone.
pub open spec fn end_lease_post(pre: LedgerView, lease_id: u64) -> LedgerView {
    LedgerView {
        leases: pre.leases.insert(
            lease_id,
            LeaseRecord { active: false, ..pre.leases[lease_id] },
        ),
        events: pre.events.push(Event::LeaseEnded { lease_id }),
        ..pre
    }
}

/// Escrow creation unconditionally creates or replaces the record with
/// status `Pending`, and emits a creation notification. It deliberately does
/// not validate that the property exists, that buyer and seller differ, or
/// that the amount is positive.
pub open spec fn create_escrow_post(
    pre: LedgerView,
    escrow_id: u64,
    property_id: u64,
    buyer: u64,
    seller: u64,
    arbiter: u64,
    amount: i64,
) -> LedgerView {
    LedgerView {
        escrows: pre.escrows.insert(
            escrow_id,
            EscrowRecord {
                property_id,
                buyer,
                seller,
                arbiter,
                amount,
                status: EscrowStatus::Pending,
            },
        ),
        events: pre.events.push(
            Event::EscrowCreated { escrow_id, property_id, buyer, seller, arbiter, amount },
        ),
        ..pre
    }
}

/// A release is allowed exactly when the escrow exists, the invoker is its
/// arbiter and, if an ownership transfer is requested, the referenced
/// property exists and its stored owner is the escrow's recorded seller.
/// The escrow's current status is deliberately not consulted: there is no
/// guard against resolving an already-terminal escrow again.
pub open spec fn release_escrow_allowed(
    pre: LedgerView,
    invoker: u64,
    escrow_id: u64,
    transfer_ownership: bool,
) -> bool {
    &&& pre.escrows.contains_key(escrow_id)
    &&& invoker == pre.escrows[escrow_id].arbiter
    &&& (transfer_ownership ==> {
        &&& pre.properties.contains_key(pre.escrows[escrow_id].property_id)
        &&& pre.properties[pre.escrows[escrow_id].property_id].owner
            == pre.escrows[escrow_id].seller
    })
}

/// A successful release sets the status to `Released`, preserving every
/// other escrow field, and emits a release notification; when an ownership
/// transfer was requested it additionally makes the escrow's buyer the
/// property's owner, preserving the metadata, and emits a secondary
/// ownership-transfer notification.
pub open spec fn release_escrow_post(
    pre: LedgerView,
    escrow_id: u64,
    transfer_ownership: bool,
) -> LedgerView {
    let e = pre.escrows[escrow_id];
    let released = LedgerView {
        escrows: pre.escrows.insert(escrow_id, EscrowRecord { status: EscrowStatus::Released, ..e }),
        events: pre.events.push(Event::EscrowReleased { escrow_id, amount: e.amount }),
        ..pre
    };
    if transfer_ownership {
        LedgerView {
            properties: released.properties.insert(
                e.property_id,
                PropertyRecord {
                    owner: e.buyer,
                    metadata: released.properties[e.property_id].metadata,
                },
            ),
            events: released.events.push(
                Event::EscrowTriggeredTransfer {
                    property_id: e.property_id,
                    seller: e.seller,
                    buyer: e.buyer,
                },
            ),
            ..released
        }
    } else {
        released
    }
}

/// A cancellation is allowed exactly when the escrow exists and the invoker
/// is its arbiter; as with release, the current status is not consulted.
pub open spec fn cancel_escrow_allowed(pre: LedgerView, invoker: u64, escrow_id: u64) -> bool {
    &&& pre.escrows.contains_key(escrow_id)
    &&& invoker == pre.escrows[escrow_id].arbiter
}

/// A successful cancellation sets the status to `Cancelled`, preserving
/// every other escrow field, and emits a cancellation notification.
pub open spec fn cancel_escrow_post(pre: LedgerView, escrow_id: u64) -> LedgerView {
    let e = pre.escrows[escrow_id];
    LedgerView {
        escrows: pre.escrows.insert(
            escrow_id,
            EscrowRecord { status: EscrowStatus::Cancelled, ..e },
        ),
        events: pre.events.push(Event::EscrowCancelled { escrow_id, amount: e.amount }),
        ..pre
    }
}

/// The registry of property, lease and escrow records, together with the
/// log of notifications emitted so far. The three record categories share
/// one storage namespace in the host; keeping them in separate stores is
/// exactly the composite (category, id) keying — ids never collide across
/// categories.
pub struct RealEstateContract {
    properties: Store<PropertyRecord>,
    leases: Store<LeaseRecord>,
    escrows: Store<EscrowRecord>,
    event_log: Vec<Event>,
}

impl View for RealEstateContract {
    type V = LedgerView;

    closed spec fn view(&self) -> LedgerView {
        LedgerView {
            properties: self.properties@,
            leases: self.leases@,
            escrows: self.escrows@,
            events: self.event_log@,
        }
    }
}

impl RealEstateContract {
    /// An empty registry: no records, no notifications.
    pub fn new() -> (r: Self)
        ensures
            r@ == (LedgerView {
                properties: Map::<u64, PropertyRecord>::empty(),
                leases: Map::<u64, LeaseRecord>::empty(),
                escrows: Map::<u64, EscrowRecord>::empty(),
                events: Seq::<Event>::empty(),
            }),
    {
        RealEstateContract {
            properties: Store::new(),
            leases: Store::new(),
            escrows: Store::new(),
            event_log: Vec::new(),
        }
    }

    /// The notifications emitted so far, oldest first.
    pub fn event_log(&self) -> (r: &Vec<Event>)
        ensures
            r@ == self@.events,
    {
        &self.event_log
    }

    /// Register a property: unconditionally create or replace the record
    /// for `property_id`.
    pub fn register_property(&mut self, property_id: u64, owner: u64, metadata: u64)
        ensures
            final(self)@ == register_property_post(old(self)@, property_id, owner, metadata),
    {
        self.properties.set(property_id, PropertyRecord { owner, metadata });
        self.event_log.push(Event::PropertyRegistered { property_id, owner, metadata });
    }

    /// The property record under `property_id`, if any. Reads are public:
    /// no authorization is required and nothing is mutated.
    pub fn get_property(&self, property_id: u64) -> (r: Option<PropertyRecord>)
        ensures
            self@.properties.contains_key(property_id) ==> r == Some(
                self@.properties[property_id],
            ),
            !self@.properties.contains_key(property_id) ==> r is None,
    {
        self.properties.get(property_id)
    }

    /// Transfer ownership of a property. Only the currently stored owner
    /// may transfer; on success the owner is replaced and the metadata
    /// preserved. On any error the state is exactly as it was.
    pub fn transfer_property(&mut self, invoker: u64, property_id: u64, new_owner: u64) -> (r:
        Result<(), Error>)
        ensures
            r is Ok <==> transfer_allowed(old(self)@, invoker, property_id),
            r is Ok ==> final(self)@ == transfer_post(old(self)@, property_id, new_owner),
            r is Err ==> final(self)@ == old(self)@,
            r == Err::<(), Error>(Error::NotFound) <==> !old(self)@.properties.contains_key(
                property_id,
            ),
            r == Err::<(), Error>(Error::Unauthorized) <==> (old(self)@.properties.contains_key(
                property_id,
            ) && old(self)@.properties[property_id].owner != invoker),
    {
        match self.properties.get(property_id) {
            None => Err(Error::NotFound),
            Some(rec) => {
                if rec.owner != invoker {
                    Err(Error::Unauthorized)
                } else {
                    self.properties.set(
                        property_id,
                        PropertyRecord { owner: new_owner, metadata: rec.metadata },
                    );
                    self.event_log.push(
                        Event::PropertyTransferred {
                            property_id,
                            old_owner: rec.owner,
                            new_owner,
                        },
                    );
                    Ok(())
                }
            },
        }
    }

    /// Create a lease: unconditionally create or replace the record for
    /// `lease_id`, with the active flag set.
    pub fn create_lease(
        &mut self,
        lease_id: u64,
        property_id: u64,
        tenant: u64,
        start_ts: i64,
        end_ts: i64,
        rent: i64,
    )
        ensures
            final(self)@ == create_lease_post(
                old(self)@,
                lease_id,
                property_id,
                tenant,
                start_ts,
                end_ts,
                rent,
            ),
    {
        self.leases.set(
            lease_id,
            LeaseRecord { property_id, tenant, start_ts, end_ts, rent, active: true },
        );
        self.event_log.push(
            Event::LeaseCreated { lease_id, property_id, tenant, start_ts, end_ts, rent },
        );
    }

    /// The lease record under `lease_id`, if any.
    pub fn get_lease(&self, lease_id: u64) -> (r: Option<LeaseRecord>)
        ensures
            self@.leases.contains_key(lease_id) ==> r == Some(self@.leases[lease_id]),
            !self@.leases.contains_key(lease_id) ==> r is None,
    {
        self.leases.get(lease_id)
    }

    /// End a lease. The lease and its referenced property must exist, and
    /// the invoker must be the lease's tenant or the property's current
    /// owner. Ending an already-inactive lease succeeds again: the state is
    /// unchanged but the termination notification is emitted once more.
    pub fn end_lease(&mut self, invoker: u64, lease_id: u64) -> (r: Result<(), Error>)
        ensures
            r is Ok <==> end_lease_allowed(old(self)@, invoker, lease_id),
            r is Ok ==> final(self)@ == end_lease_post(old(self)@, lease_id),
            r is Err ==> final(self)@ == old(self)@,
            r == Err::<(), Error>(Error::NotFound) <==> (!old(self)@.leases.contains_key(lease_id)
                || !old(self)@.properties.contains_key(old(self)@.leases[lease_id].property_id)),
            r == Err::<(), Error>(Error::Unauthorized) <==> (old(self)@.leases.contains_key(
                lease_id,
            ) && old(self)@.properties.contains_key(old(self)@.leases[lease_id].property_id)
                && invoker != old(self)@.leases[lease_id].tenant && invoker != old(
                self,
            )@.properties[old(self)@.leases[lease_id].property_id].owner),
    {
        let lease = match self.leases.get(lease_id) {
            None => { return Err(Error::NotFound); },
            Some(l) => l,
        };
        let prop = match self.properties.get(lease.property_id) {
            None => { return Err(Error::NotFound); },
            Some(p) => p,
        };
        if invoker != lease.tenant && invoker != prop.owner {
            return Err(Error::Unauthorized);
        }
        self.leases.set(lease_id, LeaseRecord { active: false, ..lease });
        self.event_log.push(Event::LeaseEnded { lease_id });
        Ok(())
    }

    /// Create an escrow: unconditionally create or replace the record for
    /// `escrow_id`, with status `Pending`.
    pub fn create_escrow(
        &mut self,
        escrow_id: u64,
        property_id: u64,
        buyer: u64,
        seller: u64,
        arbiter: u64,
        amount: i64,
    )
        ensures
            final(self)@ == create_escrow_post(
                old(self)@,
                escrow_id,
                property_id,
                buyer,
                seller,
                arbiter,
                amount,
            ),
    {
        self.escrows.set(
            escrow_id,
            EscrowRecord {
                property_id,
                buyer,
                seller,
                arbiter,
                amount,
                status: EscrowStatus::Pending,
            },
        );
        self.event_log.push(
            Event::EscrowCreated { escrow_id, property_id, buyer, seller, arbiter, amount },
        );
    }

    /// The escrow record under `escrow_id`, if any.
    pub fn get_escrow(&self, escrow_id: u64) -> (r: Option<EscrowRecord>)
        ensures
            self@.escrows.contains_key(escrow_id) ==> r == Some(self@.escrows[escrow_id]),
            !self@.escrows.contains_key(escrow_id) ==> r is None,
    {
        self.escrows.get(escrow_id)
    }

    /// Release an escrow: arbiter only. Sets the status to `Released`
    /// regardless of its prior value and, when `transfer_ownership` is
    /// requested, additionally makes the escrow's buyer the property's
    /// owner — but only when the property's stored owner is the escrow's
    /// recorded seller. Every precondition across both records is validated
    /// before either record is written, so an error never leaves one record
    /// updated and the other not: on any error the state is exactly as it
    /// was.
    pub fn release_escrow(
        &mut self,
        invoker: u64,
        escrow_id: u64,
        transfer_ownership: bool,
    ) -> (r: Result<(), Error>)
        ensures
            r is Ok <==> release_escrow_allowed(old(self)@, invoker, escrow_id, transfer_ownership),
            r is Ok ==> final(self)@ == release_escrow_post(
                old(self)@,
                escrow_id,
                transfer_ownership,
            ),
            r is Err ==> final(self)@ == old(self)@,
            r == Err::<(), Error>(Error::NotFound) <==> (!old(self)@.escrows.contains_key(escrow_id)
                || (invoker == old(self)@.escrows[escrow_id].arbiter && transfer_ownership
                && !old(self)@.properties.contains_key(
                old(self)@.escrows[escrow_id].property_id,
            ))),
            r == Err::<(), Error>(Error::Unauthorized) <==> (old(self)@.escrows.contains_key(
                escrow_id,
            ) && invoker != old(self)@.escrows[escrow_id].arbiter),
            r == Err::<(), Error>(Error::SellerNotOwner) <==> (old(self)@.escrows.contains_key(
                escrow_id,
            ) && invoker == old(self)@.escrows[escrow_id].arbiter && transfer_ownership && old(
                self,
            )@.properties.contains_key(old(self)@.escrows[escrow_id].property_id) && old(
                self,
            )@.properties[old(self)@.escrows[escrow_id].property_id].owner != old(
                self,
            )@.escrows[escrow_id].seller),
    {
        let esc = match self.escrows.get(escrow_id) {
            None => { return Err(Error::NotFound); },
            Some(e) => e,
        };
        if invoker != esc.arbiter {
            return Err(Error::Unauthorized);
        }
        if transfer_ownership {
            let prop = match self.properties.get(esc.property_id) {
                None => { return Err(Error::NotFound); },
                Some(p) => p,
            };
            if prop.owner != esc.seller {
                return Err(Error::SellerNotOwner);
            }
            self.escrows.set(escrow_id, EscrowRecord { status: EscrowStatus::Released, ..esc });
            self.event_log.push(Event::EscrowReleased { escrow_id, amount: esc.amount });
            self.properties.set(
                esc.property_id,
                PropertyRecord { owner: esc.buyer, metadata: prop.metadata },
            );
            self.event_log.push(
                Event::EscrowTriggeredTransfer {
                    property_id: esc.property_id,
                    seller: esc.seller,
                    buyer: esc.buyer,
                },
            );
            Ok(())
        } else {
            self.escrows.set(escrow_id, EscrowRecord { status: EscrowStatus::Released, ..esc });
            self.event_log.push(Event::EscrowReleased { escrow_id, amount: esc.amount });
            Ok(())
        }
    }

    /// Cancel an escrow: arbiter only. Sets the status to `Cancelled`
    /// regardless of its prior value. On any error the state is exactly as
    /// it was.
    pub fn cancel_escrow(&mut self, invoker: u64, escrow_id: u64) -> (r: Result<(), Error>)
        ensures
            r is Ok <==> cancel_escrow_allowed(old(self)@, invoker, escrow_id),
            r is Ok ==> final(self)@ == cancel_escrow_post(old(self)@, escrow_id),
            r is Err ==> final(self)@ == old(self)@,
            r == Err::<(), Error>(Error::NotFound) <==> !old(self)@.escrows.contains_key(escrow_id),
            r == Err::<(), Error>(Error::Unauthorized) <==> (old(self)@.escrows.contains_key(
                escrow_id,
            ) && invoker != old(self)@.escrows[escrow_id].arbiter),
    {
        let esc = match self.escrows.get(escrow_id) {
            None => { return Err(Error::NotFound); },
            Some(e) => e,
        };
        if invoker != esc.arbiter {
            return Err(Error::Unauthorized);
        }
        self.escrows.set(escrow_id, EscrowRecord { status: EscrowStatus::Cancelled, ..esc });
        self.event_log.push(Event::EscrowCancelled { escrow_id, amount: esc.amount });
        Ok(())
    }
}

} // verus!
