//! A ledger-backed registry for real-estate records: property ownership,
//! leases, and escrow-mediated sales.
//!
//! The registry is the state-transition and authorization core of the system:
//! it defines the records, the rules about who may mutate them, and the
//! guarantees that hold before and after each mutation. Persistence, caller
//! identity verification and event transport are the host's business; the
//! host hands every operation an already-verified invoker identity, and the
//! registry keeps the authoritative model of the stored records and of the
//! notifications each operation emits.

pub mod laws;
pub mod records;
pub mod registry;
pub mod store;
