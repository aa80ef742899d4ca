use winshell::{externalize_id, internalize_id, MAX_APP_ID};

#[test]
fn internalize_translates_in_range_ids() {
    assert_eq!(internalize_id(0).unwrap(), 0xF001);
    assert_eq!(internalize_id(42).unwrap(), 0xF02B);
    assert_eq!(internalize_id(4094).unwrap(), 0xFFFF);
}

#[test]
fn internalize_rejects_out_of_range_ids() {
    assert!(internalize_id(4095).is_err());
    assert!(internalize_id(5000).is_err());
    assert!(internalize_id(u16::MAX).is_err());
}

#[test]
fn id_round_trip_recovers_every_id() {
    for id in 0..=MAX_APP_ID {
        let wid = internalize_id(id).unwrap();
        assert!(wid <= u16::MAX as u32);
        assert_eq!(externalize_id(wid as u16), Some(id));
    }
}

#[test]
fn externalize_ignores_foreign_ids() {
    assert_eq!(externalize_id(0), None);
    assert_eq!(externalize_id(1), None);
    assert_eq!(externalize_id(0xF000), None);
    assert_eq!(externalize_id(0xF001), Some(0));
    assert_eq!(externalize_id(0xFFFF), Some(4094));
}
