//! Battery value conversion tests.

use watchface::StateOfCharge;

#[test]
fn percentage_endpoints_are_exact() {
    assert_eq!(StateOfCharge::from_percentage(100).level(), 255);
    assert_eq!(StateOfCharge::from_percentage(0).level(), 0);
    assert_eq!(StateOfCharge::from_percentage(100).percentage(), 100);
    assert_eq!(StateOfCharge::from_percentage(0).percentage(), 0);
}

#[test]
fn percentage_round_trip_is_bounded() {
    // The percentage read back is never above the input percentage and
    // at most one below it, for every allowed percentage.
    for percentage in 0..=100u8 {
        let read_back = StateOfCharge::from_percentage(percentage).percentage();
        assert!(read_back <= percentage);
        assert!(read_back + 1 >= percentage);
    }
}

#[test]
fn level_round_trips_exactly() {
    for level in 0..=255u8 {
        assert_eq!(StateOfCharge::from_level(level).level(), level);
    }
}

#[test]
fn fifty_percent_scales_to_mid_level() {
    assert_eq!(StateOfCharge::from_percentage(50).level(), 127);
    assert_eq!(StateOfCharge::from_percentage(50).percentage(), 49);
}
