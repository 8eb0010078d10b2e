use real_estate_registry::records::{Error, Event, LeaseRecord};
use real_estate_registry::registry::RealEstateContract;

#[test]
fn get_of_unknown_lease_is_none() {
    let reg = RealEstateContract::new();
    assert_eq!(reg.get_lease(7), None);
}

#[test]
fn get_after_create_returns_fields_last_written_and_active() {
    let mut reg = RealEstateContract::new();
    reg.create_lease(7, 1, 60, 100, 200, 5);
    assert_eq!(
        reg.get_lease(7),
        Some(LeaseRecord {
            property_id: 1,
            tenant: 60,
            start_ts: 100,
            end_ts: 200,
            rent: 5,
            active: true,
        })
    );
    assert_eq!(
        reg.event_log()[0],
        Event::LeaseCreated {
            lease_id: 7,
            property_id: 1,
            tenant: 60,
            start_ts: 100,
            end_ts: 200,
            rent: 5,
        }
    );
}

#[test]
fn lease_creation_does_not_validate_property_or_times() {
    // The property does not exist, the timestamps are reversed and the rent
    // is negative: creation still succeeds unconditionally.
    let mut reg = RealEstateContract::new();
    reg.create_lease(7, 999, 60, 200, 100, -5);
    let lease = reg.get_lease(7).unwrap();
    assert!(lease.active);
    assert_eq!(lease.rent, -5);
}

#[test]
fn end_lease_by_tenant_clears_active_and_preserves_fields() {
    let mut reg = RealEstateContract::new();
    reg.register_property(1, 10, 77);
    reg.create_lease(7, 1, 60, 100, 200, 5);
    assert_eq!(reg.end_lease(60, 7), Ok(()));
    assert_eq!(
        reg.get_lease(7),
        Some(LeaseRecord {
            property_id: 1,
            tenant: 60,
            start_ts: 100,
            end_ts: 200,
            rent: 5,
            active: false,
        })
    );
    assert_eq!(reg.event_log()[2], Event::LeaseEnded { lease_id: 7 });
}

#[test]
fn end_lease_by_property_owner_succeeds() {
    let mut reg = RealEstateContract::new();
    reg.register_property(1, 10, 77);
    reg.create_lease(7, 1, 60, 100, 200, 5);
    assert_eq!(reg.end_lease(10, 7), Ok(()));
    assert!(!reg.get_lease(7).unwrap().active);
}

#[test]
fn end_lease_of_missing_lease_fails_not_found() {
    let mut reg = RealEstateContract::new();
    reg.register_property(1, 10, 77);
    assert_eq!(reg.end_lease(10, 7), Err(Error::NotFound));
}

#[test]
fn end_lease_with_missing_property_fails_not_found() {
    let mut reg = RealEstateContract::new();
    reg.create_lease(7, 1, 60, 100, 200, 5);
    assert_eq!(reg.end_lease(60, 7), Err(Error::NotFound));
    assert!(reg.get_lease(7).unwrap().active);
}

#[test]
fn end_lease_by_stranger_fails_unauthorized() {
    let mut reg = RealEstateContract::new();
    reg.register_property(1, 10, 77);
    reg.create_lease(7, 1, 60, 100, 200, 5);
    assert_eq!(reg.end_lease(99, 7), Err(Error::Unauthorized));
    assert!(reg.get_lease(7).unwrap().active);
}

#[test]
fn recreating_an_ended_lease_id_starts_a_fresh_active_lease() {
    let mut reg = RealEstateContract::new();
    reg.register_property(1, 10, 77);
    reg.create_lease(7, 1, 60, 100, 200, 5);
    assert_eq!(reg.end_lease(60, 7), Ok(()));
    reg.create_lease(7, 1, 61, 300, 400, 6);
    let lease = reg.get_lease(7).unwrap();
    assert!(lease.active);
    assert_eq!(lease.tenant, 61);
}

#[test]
fn re_ending_a_lease_keeps_state_but_emits_again() {
    let mut reg = RealEstateContract::new();
    reg.register_property(1, 10, 77);
    reg.create_lease(7, 1, 60, 100, 200, 5);
    assert_eq!(reg.end_lease(60, 7), Ok(()));
    let after_first = reg.get_lease(7);
    let events_after_first: usize = reg.event_log().len();
    assert_eq!(reg.end_lease(60, 7), Ok(()));
    assert_eq!(reg.get_lease(7), after_first);
    assert_eq!(reg.event_log().len(), events_after_first + 1);
    assert_eq!(reg.event_log()[events_after_first], Event::LeaseEnded { lease_id: 7 });
}
