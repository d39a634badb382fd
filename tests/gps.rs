use exif_edit::{gps_ref, uR64, DMS, F64};

fn ur(n: u32, d: u32) -> uR64 {
    uR64 { nominator: n, denominator: d }
}

#[test]
fn hemisphere_reference() {
    assert_eq!(gps_ref("N"), Some(true));
    assert_eq!(gps_ref("E"), Some(true));
    assert_eq!(gps_ref("S"), Some(false));
    assert_eq!(gps_ref("W"), Some(false));
}

#[test]
fn coordinate_reads_three_rationals() {
    let d = DMS::from_vec(&[ur(35, 1), ur(61, 2), ur(4512, 100)]).unwrap();
    assert_eq!(d.degree, 35);
    assert_eq!(d.minute, 30);
    assert_eq!(d.second, F64::new(4512, 100));
    assert_eq!(d.to_vec(), vec![ur(35, 1), ur(30, 1), ur(4512, 100)]);
    assert!(DMS::from_vec(&[ur(181, 1), ur(0, 1), ur(0, 1)]).is_none());
    assert!(DMS::from_vec(&[ur(10, 1), ur(60, 1), ur(0, 1)]).is_none());
    assert!(DMS::from_vec(&[ur(10, 1), ur(0, 1)]).is_none());
    let z = DMS::from_vec(&[ur(10, 0), ur(0, 0), ur(3, 0)]).unwrap();
    assert_eq!(z.second, F64::new(3, 1));
}

#[test]
fn coordinate_from_decimal_degrees() {
    let d = DMS::from_f64(F64::new(355125, 10000), 100).unwrap();
    assert_eq!((d.degree, d.minute), (35, 30));
    assert_eq!(d.second, F64::new(4500, 100));
    assert_eq!(d.to_fraction(), (12784500, 360000));
    let s = DMS::from_f64(F64::new(-355125, 10000), 100).unwrap();
    assert_eq!(s, d);
}

#[test]
fn coordinate_round_trip_within_resolution() {
    let v = F64::new(1234567, 10000);
    let d = DMS::from_f64(v, 1000).unwrap();
    let (n, q) = d.to_fraction();
    let err = 1234567u128 * q as u128 - n as u128 * 10000;
    assert!(err < 10000);
}

#[test]
fn coordinate_seconds_cap() {
    let d = DMS::from_f64(F64::new(1, 120), u32::MAX).unwrap();
    assert_eq!(d.second.numerator, u32::MAX as i64);
}

#[test]
fn coordinate_out_of_range() {
    assert!(DMS::from_f64(F64::new(1801, 10), 1).is_none());
    assert!(DMS::from_f64(F64::new(-1801, 10), 1).is_none());
    assert!(DMS::from_f64(F64::new(180, 1), 1).is_some());
}
