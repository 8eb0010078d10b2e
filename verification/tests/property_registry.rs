use real_estate_registry::records::{Error, Event, PropertyRecord};
use real_estate_registry::registry::RealEstateContract;

#[test]
fn get_of_unknown_property_is_none() {
    let reg = RealEstateContract::new();
    assert_eq!(reg.get_property(1), None);
    assert_eq!(reg.event_log().len(), 0);
}

#[test]
fn get_after_register_returns_fields_last_written() {
    let mut reg = RealEstateContract::new();
    reg.register_property(1, 10, 77);
    assert_eq!(reg.get_property(1), Some(PropertyRecord { owner: 10, metadata: 77 }));
    assert_eq!(
        reg.event_log()[0],
        Event::PropertyRegistered { property_id: 1, owner: 10, metadata: 77 }
    );
}

#[test]
fn re_registration_silently_replaces_owner_and_metadata() {
    let mut reg = RealEstateContract::new();
    reg.register_property(1, 10, 77);
    reg.register_property(1, 20, 88);
    assert_eq!(reg.get_property(1), Some(PropertyRecord { owner: 20, metadata: 88 }));
    assert_eq!(reg.event_log().len(), 2);
}

#[test]
fn transfer_by_owner_replaces_owner_and_preserves_metadata() {
    let mut reg = RealEstateContract::new();
    reg.register_property(1, 10, 77);
    assert_eq!(reg.transfer_property(10, 1, 20), Ok(()));
    assert_eq!(reg.get_property(1), Some(PropertyRecord { owner: 20, metadata: 77 }));
    assert_eq!(
        reg.event_log()[1],
        Event::PropertyTransferred { property_id: 1, old_owner: 10, new_owner: 20 }
    );
}

#[test]
fn transfer_of_missing_property_fails_not_found() {
    let mut reg = RealEstateContract::new();
    assert_eq!(reg.transfer_property(10, 1, 20), Err(Error::NotFound));
    assert_eq!(reg.event_log().len(), 0);
}

#[test]
fn transfer_by_non_owner_fails_unauthorized() {
    let mut reg = RealEstateContract::new();
    reg.register_property(1, 10, 77);
    assert_eq!(reg.transfer_property(99, 1, 20), Err(Error::Unauthorized));
    assert_eq!(reg.get_property(1), Some(PropertyRecord { owner: 10, metadata: 77 }));
}

#[test]
fn old_owner_can_no_longer_transfer() {
    let mut reg = RealEstateContract::new();
    reg.register_property(1, 10, 77);
    assert_eq!(reg.transfer_property(10, 1, 20), Ok(()));
    assert_eq!(reg.transfer_property(10, 1, 30), Err(Error::Unauthorized));
    assert_eq!(reg.get_property(1), Some(PropertyRecord { owner: 20, metadata: 77 }));
}
