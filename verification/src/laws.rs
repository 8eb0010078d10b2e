//! The guarantees the registry keeps across operations, stated over the
//! spec-level transitions of [`crate::registry`] and proved once and for
//! all. Each executable operation is already proved to perform exactly its
//! transition, so these laws hold of every sequence of calls.

use vstd::prelude::*;
use crate::records::{EscrowRecord, EscrowStatus, Event, LeaseRecord, PropertyRecord};
use crate::registry::{
    cancel_escrow_post, create_escrow_post, create_lease_post, end_lease_allowed, end_lease_post,
    register_property_post, release_escrow_allowed, release_escrow_post, transfer_allowed,
    transfer_post, LedgerView,
};

verus! {

/// A read after a registration returns exactly the fields last written:
/// whatever the id held before, after registering it the property record is
/// the owner and metadata just given.
pub proof fn lemma_get_after_register(pre: LedgerView, property_id: u64, owner: u64, metadata: u64)
    ensures
        register_property_post(pre, property_id, owner, metadata).properties.contains_key(
            property_id,
        ),
        register_property_post(pre, property_id, owner, metadata).properties[property_id]
            == (PropertyRecord { owner, metadata }),
{
}

/// A read after a lease creation returns exactly the fields last written,
/// with the active flag set.
pub proof fn lemma_get_after_create_lease(
    pre: LedgerView,
    lease_id: u64,
    property_id: u64,
    tenant: u64,
    start_ts: i64,
    end_ts: i64,
    rent: i64,
)
    ensures
        create_lease_post(
            pre,
            lease_id,
            property_id,
            tenant,
            start_ts,
            end_ts,
            rent,
        ).leases.contains_key(lease_id),
        create_lease_post(pre, lease_id, property_id, tenant, start_ts, end_ts, rent).leases[
            lease_id] == (LeaseRecord { property_id, tenant, start_ts, end_ts, rent, active: true }),
{
}

/// A read after an escrow creation returns exactly the fields last written,
/// with status `Pending`.
pub proof fn lemma_get_after_create_escrow(
    pre: LedgerView,
    escrow_id: u64,
    property_id: u64,
    buyer: u64,
    seller: u64,
    arbiter: u64,
    amount: i64,
)
    ensures
        create_escrow_post(
            pre,
            escrow_id,
            property_id,
            buyer,
            seller,
            arbiter,
            amount,
        ).escrows.contains_key(escrow_id),
        create_escrow_post(pre, escrow_id, property_id, buyer, seller, arbiter, amount).escrows[
            escrow_id] == (EscrowRecord {
            property_id,
            buyer,
            seller,
            arbiter,
            amount,
            status: EscrowStatus::Pending,
        }),
{
}

/// A transfer is allowed exactly for the currently stored owner, and a
/// completed transfer revokes the old owner: once the property has gone to
/// a different owner, a second transfer by the previous owner is no longer
/// allowed — it fails `Unauthorized`.
pub proof fn lemma_transfer_revokes_old_owner(
    pre: LedgerView,
    invoker: u64,
    property_id: u64,
    new_owner: u64,
)
    requires
        transfer_allowed(pre, invoker, property_id),
        new_owner != invoker,
    ensures
        transfer_post(pre, property_id, new_owner).properties[property_id].owner == new_owner,
        !transfer_allowed(transfer_post(pre, property_id, new_owner), invoker, property_id),
{
}

/// After a permitted lease termination the active flag reads false, and
/// ending the lease again is still permitted: the second termination leaves
/// the records exactly as they were, but emits the termination notification
/// once more — idempotent on state, not on event count.
pub proof fn lemma_end_lease_idempotent_on_state(pre: LedgerView, invoker: u64, lease_id: u64)
    requires
        end_lease_allowed(pre, invoker, lease_id),
    ensures
        end_lease_post(pre, lease_id).leases[lease_id].active == false,
        end_lease_allowed(end_lease_post(pre, lease_id), invoker, lease_id),
        end_lease_post(end_lease_post(pre, lease_id), lease_id).leases == end_lease_post(
            pre,
            lease_id,
        ).leases,
        end_lease_post(end_lease_post(pre, lease_id), lease_id).properties == end_lease_post(
            pre,
            lease_id,
        ).properties,
        end_lease_post(end_lease_post(pre, lease_id), lease_id).events == end_lease_post(
            pre,
            lease_id,
        ).events.push(Event::LeaseEnded { lease_id }),
{
    let once = end_lease_post(pre, lease_id);
    let twice = end_lease_post(once, lease_id);
    assert(once.leases[lease_id] == (LeaseRecord { active: false, ..pre.leases[lease_id] }));
    assert(twice.leases =~= once.leases);
}

/// An escrow whose status is terminal (`Released` or `Cancelled`) is never
/// returned to `Pending`: a release or cancellation — of this escrow or any
/// other — leaves its status terminal, and the property and lease
/// operations do not touch the escrow records at all. The one operation
/// excluded here is escrow creation, which deliberately resets the record
/// it overwrites: re-creating a settled escrow id starts a fresh `Pending`
/// escrow.
pub proof fn lemma_terminal_status_never_pending(pre: LedgerView, escrow_id: u64)
    requires
        pre.escrows.contains_key(escrow_id),
        pre.escrows[escrow_id].status != EscrowStatus::Pending,
    ensures
        forall|other: u64, t: bool|
            (#[trigger] release_escrow_post(pre, other, t)).escrows.contains_key(escrow_id)
                && release_escrow_post(pre, other, t).escrows[escrow_id].status
                != EscrowStatus::Pending,
        forall|other: u64|
            (#[trigger] cancel_escrow_post(pre, other)).escrows.contains_key(escrow_id)
                && cancel_escrow_post(pre, other).escrows[escrow_id].status
                != EscrowStatus::Pending,
        forall|id: u64, owner: u64, metadata: u64|
            (#[trigger] register_property_post(pre, id, owner, metadata)).escrows == pre.escrows,
        forall|id: u64, new_owner: u64|
            (#[trigger] transfer_post(pre, id, new_owner)).escrows == pre.escrows,
        forall|lease_id: u64, property_id: u64, tenant: u64, start_ts: i64, end_ts: i64, rent: i64|
            (#[trigger] create_lease_post(
                pre,
                lease_id,
                property_id,
                tenant,
                start_ts,
                end_ts,
                rent,
            )).escrows == pre.escrows,
        forall|lease_id: u64| (#[trigger] end_lease_post(pre, lease_id)).escrows == pre.escrows,
{
}

/// A lease's active flag transitions only from set to cleared, never back:
/// a termination — of this lease or any other — leaves an inactive lease
/// inactive, and the property and escrow operations do not touch the lease
/// records at all. The one operation excluded here is lease creation, which
/// deliberately overwrites the record it replaces with a fresh active
/// lease.
pub proof fn lemma_inactive_lease_stays_inactive(pre: LedgerView, lease_id: u64)
    requires
        pre.leases.contains_key(lease_id),
        !pre.leases[lease_id].active,
    ensures
        forall|other: u64|
            (#[trigger] end_lease_post(pre, other)).leases.contains_key(lease_id)
                && !end_lease_post(pre, other).leases[lease_id].active,
        forall|id: u64, owner: u64, metadata: u64|
            (#[trigger] register_property_post(pre, id, owner, metadata)).leases == pre.leases,
        forall|id: u64, new_owner: u64|
            (#[trigger] transfer_post(pre, id, new_owner)).leases == pre.leases,
        forall|escrow_id: u64, property_id: u64, buyer: u64, seller: u64, arbiter: u64, amount:
            i64|
            (#[trigger] create_escrow_post(
                pre,
                escrow_id,
                property_id,
                buyer,
                seller,
                arbiter,
                amount,
            )).leases == pre.leases,
        forall|other: u64, t: bool|
            (#[trigger] release_escrow_post(pre, other, t)).leases == pre.leases,
        forall|other: u64| (#[trigger] cancel_escrow_post(pre, other)).leases == pre.leases,
{
}

/// A release that carries an ownership transfer is allowed only when the
/// property's stored owner is the escrow's recorded seller, and on success
/// the property's owner becomes the escrow's buyer while the escrow reads
/// `Released`.
pub proof fn lemma_release_transfers_to_buyer(pre: LedgerView, invoker: u64, escrow_id: u64)
    requires
        release_escrow_allowed(pre, invoker, escrow_id, true),
    ensures
        pre.properties[pre.escrows[escrow_id].property_id].owner == pre.escrows[escrow_id].seller,
        release_escrow_post(pre, escrow_id, true).properties.contains_key(
            pre.escrows[escrow_id].property_id,
        ),
        release_escrow_post(pre, escrow_id, true).properties[pre.escrows[escrow_id].property_id]
            .owner == pre.escrows[escrow_id].buyer,
        release_escrow_post(pre, escrow_id, true).escrows.contains_key(escrow_id),
        release_escrow_post(pre, escrow_id, true).escrows[escrow_id].status
            == EscrowStatus::Released,
{
}

} // verus!
