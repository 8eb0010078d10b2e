//! The record types held by the registry, the error taxonomy, and the
//! notifications that operations emit.
//!
//! Identities (owners, tenants, buyers, sellers, arbiters) and record
//! identifiers are opaque tokens supplied by the host: the rules here only
//! ever compare them for equality, so they are carried as machine words.
//! Metadata is likewise an opaque token (for instance a content hash).

use vstd::prelude::*;

verus! {

/// Status of an escrow record. `Pending` may move to `Released` or
/// `Cancelled`; the latter two are terminal business states.
#[derive(Clone, Copy, PartialEq, Eq, Debug, Structural)]
pub enum EscrowStatus {
    Pending,
    Released,
    Cancelled,
}

/// The numeric code under which a status is persisted.
pub open spec fn status_code(s: EscrowStatus) -> u32 {
    match s {
        EscrowStatus::Pending => 0,
        EscrowStatus::Released => 1,
        EscrowStatus::Cancelled => 2,
    }
}

/// The status denoted by a stored numeric code; unknown codes read as
/// `Pending`.
pub open spec fn status_of_code(v: u32) -> EscrowStatus {
    if v == 1 {
        EscrowStatus::Released
    } else if v == 2 {
        EscrowStatus::Cancelled
    } else {
        EscrowStatus::Pending
    }
}

impl EscrowStatus {
    /// The numeric code under which this status is persisted.
    pub fn as_u32(&self) -> (r: u32)
        ensures
            r == status_code(*self),
    {
        match self {
            EscrowStatus::Pending => 0,
            EscrowStatus::Released => 1,
            EscrowStatus::Cancelled => 2,
        }
    }

    /// The status denoted by a stored numeric code.
    pub fn from_u32(v: u32) -> (r: EscrowStatus)
        ensures
            r == status_of_code(v),
    {
        match v {
            1 => EscrowStatus::Released,
            2 => EscrowStatus::Cancelled,
            _ => EscrowStatus::Pending,
        }
    }
}

/// Decoding a persisted status code yields the status that produced it.
pub proof fn lemma_status_code_round_trip(s: EscrowStatus)
    ensures
        status_of_code(status_code(s)) == s,
{
}

/// A property record: the current owner and an opaque metadata token.
#[derive(Clone, Copy, PartialEq, Eq, Debug, Structural)]
pub struct PropertyRecord {
    pub owner: u64,
    pub metadata: u64,
}

/// A lease record. `property_id` is a reference, not ownership: the property
/// need not exist for the field to be set, but termination validates it.
#[derive(Clone, Copy, PartialEq, Eq, Debug, Structural)]
pub struct LeaseRecord {
    pub property_id: u64,
    pub tenant: u64,
    pub start_ts: i64,
    pub end_ts: i64,
    pub rent: i64,
    pub active: bool,
}

/// An escrow record for a mediated sale. The arbiter alone may resolve it.
#[derive(Clone, Copy, PartialEq, Eq, Debug, Structural)]
pub struct EscrowRecord {
    pub property_id: u64,
    pub buyer: u64,
    pub seller: u64,
    pub arbiter: u64,
    pub amount: i64,
    pub status: EscrowStatus,
}

/// Why an operation refused to run. Any error aborts the whole invocation:
/// nothing persists.
#[derive(Clone, Copy, PartialEq, Eq, Debug, Structural)]
pub enum Error {
    /// The referenced property, lease or escrow has no record.
    NotFound,
    /// The invoker fails an identity check against the record's
    /// owner, tenant or arbiter.
    Unauthorized,
    /// An ownership transfer was requested but the property's stored owner
    /// is not the escrow's recorded seller.
    SellerNotOwner,
}

/// A notification describing a completed state change, in the order emitted.
/// The host forwards these to its event transport.
#[derive(Clone, Copy, PartialEq, Eq, Debug, Structural)]
pub enum Event {
    PropertyRegistered { property_id: u64, owner: u64, metadata: u64 },
    PropertyTransferred { property_id: u64, old_owner: u64, new_owner: u64 },
    LeaseCreated {
        lease_id: u64,
        property_id: u64,
        tenant: u64,
        start_ts: i64,
        end_ts: i64,
        rent: i64,
    },
    LeaseEnded { lease_id: u64 },
    EscrowCreated {
        escrow_id: u64,
        property_id: u64,
        buyer: u64,
        seller: u64,
        arbiter: u64,
        amount: i64,
    },
    EscrowReleased { escrow_id: u64, amount: i64 },
    EscrowCancelled { escrow_id: u64, amount: i64 },
    EscrowTriggeredTransfer { property_id: u64, seller: u64, buyer: u64 },
}

} // verus!
