use real_estate_registry::records::{Error, EscrowStatus, PropertyRecord};
use real_estate_registry::registry::RealEstateContract;

// One full walk through a sale: registration, an owner-authorized transfer,
// a refused re-transfer by the old owner, and an escrow-mediated sale whose
// release hands the property to the buyer. Identities: A owns the property
// first, sells to B; B2 buys it through an escrow that C arbitrates.
#[test]
fn property_sale_through_escrow() {
    let property_p: u64 = 1;
    let owner_a: u64 = 10;
    let owner_b: u64 = 20;
    let buyer_b2: u64 = 30;
    let arbiter_c: u64 = 40;
    let escrow_e: u64 = 5;

    let mut reg = RealEstateContract::new();
    reg.register_property(property_p, owner_a, 77);

    // A transfers to B — succeeds.
    assert_eq!(reg.transfer_property(owner_a, property_p, owner_b), Ok(()));

    // A attempts a second transfer — fails Unauthorized.
    assert_eq!(
        reg.transfer_property(owner_a, property_p, buyer_b2),
        Err(Error::Unauthorized)
    );

    // Escrow E: B sells to B2, C arbitrates, amount 100.
    reg.create_escrow(escrow_e, property_p, buyer_b2, owner_b, arbiter_c, 100);

    // C releases with an ownership transfer — succeeds, B2 owns P.
    assert_eq!(reg.release_escrow(arbiter_c, escrow_e, true), Ok(()));
    assert_eq!(
        reg.get_property(property_p),
        Some(PropertyRecord { owner: buyer_b2, metadata: 77 })
    );
    assert_eq!(reg.get_escrow(escrow_e).unwrap().status, EscrowStatus::Released);

    // A re-release by C is still permitted: there is no terminal-state
    // guard. The ownership transfer now fails its own precondition, since
    // the recorded seller B no longer owns P.
    assert_eq!(
        reg.release_escrow(arbiter_c, escrow_e, true),
        Err(Error::SellerNotOwner)
    );
    assert_eq!(reg.release_escrow(arbiter_c, escrow_e, false), Ok(()));
}

#[test]
fn status_codes_match_the_persisted_encoding() {
    assert_eq!(EscrowStatus::Pending.as_u32(), 0);
    assert_eq!(EscrowStatus::Released.as_u32(), 1);
    assert_eq!(EscrowStatus::Cancelled.as_u32(), 2);
    assert_eq!(EscrowStatus::from_u32(0), EscrowStatus::Pending);
    assert_eq!(EscrowStatus::from_u32(1), EscrowStatus::Released);
    assert_eq!(EscrowStatus::from_u32(2), EscrowStatus::Cancelled);
    // Unknown codes read as Pending.
    assert_eq!(EscrowStatus::from_u32(3), EscrowStatus::Pending);
    assert_eq!(EscrowStatus::from_u32(u32::MAX), EscrowStatus::Pending);
}

#[test]
fn status_codes_round_trip() {
    for s in [EscrowStatus::Pending, EscrowStatus::Released, EscrowStatus::Cancelled] {
        assert_eq!(EscrowStatus::from_u32(s.as_u32()), s);
    }
}
