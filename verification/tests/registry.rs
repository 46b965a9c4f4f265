use parking_lot::registry::{ParkingError, ParkingLot, ParkingSpot, SpotStatus};

#[test]
fn new_spot_is_free() {
    let spot = ParkingSpot::new(7);
    assert_eq!(spot.id, 7);
    assert!(!spot.occupied);
    assert!(!spot.reserved);
    assert_eq!(spot.status(), SpotStatus::Free);
}

#[test]
fn new_registry_of_zero_spots() {
    let lot = ParkingLot::new(0);
    assert_eq!(lot.snapshot(), vec![]);
    assert_eq!(lot.reservations.len(), 0);
}

#[test]
fn new_registry_all_free() {
    let lot = ParkingLot::new(4);
    assert_eq!(
        lot.snapshot(),
        vec![
            (0, SpotStatus::Free),
            (1, SpotStatus::Free),
            (2, SpotStatus::Free),
            (3, SpotStatus::Free),
        ]
    );
    assert_eq!(lot.reservations.len(), 0);
}

#[test]
fn park_car_takes_lowest_free_id() {
    let mut lot = ParkingLot::new(3);
    assert_eq!(lot.park_car(), Ok(0));
    assert_eq!(lot.park_car(), Ok(1));
    assert_eq!(lot.park_car(), Ok(2));
    assert_eq!(lot.park_car(), Err(ParkingError::NoAvailableSpot));
}

#[test]
fn park_car_never_repeats_until_release() {
    let mut lot = ParkingLot::new(3);
    assert_eq!(lot.park_car(), Ok(0));
    assert_eq!(lot.park_car(), Ok(1));
    assert_eq!(lot.remove_car(0), Ok(()));
    assert_eq!(lot.park_car(), Ok(0));
}

#[test]
fn park_car_skips_reserved() {
    let mut lot = ParkingLot::new(2);
    assert_eq!(lot.reserve_spot(0, String::from("early bird")), Ok(()));
    assert_eq!(lot.park_car(), Ok(1));
}

#[test]
fn find_available_spot_returns_first_free() {
    let mut lot = ParkingLot::new(3);
    assert_eq!(lot.park_car(), Ok(0));
    let spot = lot.find_available_spot().expect("a spot is free");
    assert_eq!(spot.id, 1);
    assert!(!spot.occupied);
    assert!(!spot.reserved);
}

#[test]
fn find_available_spot_when_full() {
    let mut lot = ParkingLot::new(1);
    assert_eq!(lot.park_car(), Ok(0));
    assert!(lot.find_available_spot().is_none());
}

#[test]
fn nearest_prefers_exact_position() {
    let lot = ParkingLot::new(5);
    let spot = lot.find_nearest_available_spot(3).expect("a spot is free");
    assert_eq!(spot.id, 3);
}

#[test]
fn nearest_breaks_tie_by_lower_id() {
    let mut lot = ParkingLot::new(5);
    assert_eq!(lot.park_car_in_spot(2), Ok(()));
    let spot = lot.find_nearest_available_spot(2).expect("a spot is free");
    assert_eq!(spot.id, 1);
}

#[test]
fn nearest_position_beyond_capacity() {
    let lot = ParkingLot::new(3);
    let spot = lot.find_nearest_available_spot(10).expect("a spot is free");
    assert_eq!(spot.id, 2);
}

#[test]
fn nearest_none_when_no_spot_free() {
    let mut lot = ParkingLot::new(1);
    assert_eq!(lot.park_car(), Ok(0));
    assert!(lot.find_nearest_available_spot(0).is_none());
}

#[test]
fn park_car_nearest_marks_occupied() {
    let mut lot = ParkingLot::new(3);
    assert_eq!(lot.park_car_nearest(1), Ok(1));
    assert_eq!(
        lot.snapshot(),
        vec![(0, SpotStatus::Free), (1, SpotStatus::Occupied), (2, SpotStatus::Free)]
    );
    assert_eq!(lot.park_car_nearest(1), Ok(0));
    assert_eq!(lot.park_car_nearest(1), Ok(2));
    assert_eq!(lot.park_car_nearest(1), Err(ParkingError::NoAvailableSpot));
}

#[test]
fn reserve_stores_details_verbatim() {
    let mut lot = ParkingLot::new(2);
    assert_eq!(lot.reserve_spot(1, String::from("Alice, until noon")), Ok(()));
    assert_eq!(
        lot.reservations.get(&1),
        Some(&String::from("Alice, until noon"))
    );
    assert_eq!(
        lot.snapshot(),
        vec![(0, SpotStatus::Free), (1, SpotStatus::Reserved)]
    );
}

#[test]
fn reserve_then_cancel_is_a_round_trip() {
    let mut lot = ParkingLot::new(3);
    assert_eq!(lot.park_car(), Ok(0));
    let before = lot.snapshot();
    assert_eq!(lot.reserve_spot(1, String::from("Alice")), Ok(()));
    assert_eq!(lot.cancel_reservation(1), Ok(()));
    assert_eq!(lot.snapshot(), before);
    assert_eq!(lot.reservations.get(&1), None);
    assert_eq!(lot.reservations.len(), 0);
}

#[test]
fn park_in_occupied_spot_fails_unchanged() {
    let mut lot = ParkingLot::new(2);
    assert_eq!(lot.park_car_in_spot(0), Ok(()));
    let before = lot.snapshot();
    assert_eq!(lot.park_car_in_spot(0), Err(ParkingError::SpotUnavailable));
    assert_eq!(lot.snapshot(), before);
    assert_eq!(lot.reservations.len(), 0);
}

#[test]
fn park_in_reserved_spot_fails_unchanged() {
    let mut lot = ParkingLot::new(2);
    assert_eq!(lot.reserve_spot(1, String::from("Bob")), Ok(()));
    let before = lot.snapshot();
    assert_eq!(lot.park_car_in_spot(1), Err(ParkingError::SpotUnavailable));
    assert_eq!(lot.snapshot(), before);
    assert_eq!(lot.reservations.get(&1), Some(&String::from("Bob")));
}

#[test]
fn park_in_out_of_range_spot_fails() {
    let mut lot = ParkingLot::new(1);
    assert_eq!(lot.park_car_in_spot(5), Err(ParkingError::InvalidSpotId));
    assert_eq!(lot.snapshot(), vec![(0, SpotStatus::Free)]);
    assert_eq!(lot.reservations.len(), 0);
}

#[test]
fn remove_car_errors() {
    let mut lot = ParkingLot::new(2);
    assert_eq!(lot.remove_car(5), Err(ParkingError::SpotNotFound));
    assert_eq!(lot.remove_car(0), Err(ParkingError::SpotNotFound));
    assert_eq!(lot.reserve_spot(1, String::from("held")), Ok(()));
    assert_eq!(lot.remove_car(1), Err(ParkingError::SpotNotFound));
    assert_eq!(
        lot.snapshot(),
        vec![(0, SpotStatus::Free), (1, SpotStatus::Reserved)]
    );
}

#[test]
fn reserve_errors() {
    let mut lot = ParkingLot::new(2);
    assert_eq!(
        lot.reserve_spot(9, String::from("x")),
        Err(ParkingError::InvalidSpotId)
    );
    assert_eq!(lot.park_car_in_spot(0), Ok(()));
    assert_eq!(
        lot.reserve_spot(0, String::from("x")),
        Err(ParkingError::SpotUnavailable)
    );
    assert_eq!(lot.reserve_spot(1, String::from("x")), Ok(()));
    assert_eq!(
        lot.reserve_spot(1, String::from("y")),
        Err(ParkingError::SpotUnavailable)
    );
    assert_eq!(lot.reservations.get(&1), Some(&String::from("x")));
}

#[test]
fn cancel_reservation_errors() {
    let mut lot = ParkingLot::new(2);
    assert_eq!(
        lot.cancel_reservation(5),
        Err(ParkingError::InvalidOrNotReserved)
    );
    assert_eq!(
        lot.cancel_reservation(0),
        Err(ParkingError::InvalidOrNotReserved)
    );
    assert_eq!(lot.park_car_in_spot(0), Ok(()));
    assert_eq!(
        lot.cancel_reservation(0),
        Err(ParkingError::InvalidOrNotReserved)
    );
}

#[test]
fn scenario_full_cycle_capacity_three() {
    let mut lot = ParkingLot::new(3);
    assert_eq!(lot.park_car(), Ok(0));
    assert_eq!(lot.reserve_spot(1, String::from("Alice")), Ok(()));
    assert_eq!(lot.park_car_nearest(2), Ok(2));
    assert_eq!(lot.remove_car(0), Ok(()));
    assert_eq!(lot.cancel_reservation(1), Ok(()));
    assert_eq!(
        lot.snapshot(),
        vec![(0, SpotStatus::Free), (1, SpotStatus::Free), (2, SpotStatus::Occupied)]
    );
}

#[test]
fn scenario_specific_out_of_range_leaves_state() {
    let mut lot = ParkingLot::new(1);
    assert_eq!(lot.park_car_in_spot(5), Err(ParkingError::InvalidSpotId));
    assert_eq!(lot.snapshot(), vec![(0, SpotStatus::Free)]);
    assert_eq!(lot.reservations.len(), 0);
}
