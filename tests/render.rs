use exif_edit::{decimal_text, hex_text, iR64, num_digits, string_number, string_rational, uR64, ExifRational, F64};

#[test]
fn digit_counts() {
    assert_eq!(num_digits(0), 1);
    assert_eq!(num_digits(7), 1);
    assert_eq!(num_digits(10), 2);
    assert_eq!(num_digits(2147483647), 10);
    assert_eq!(num_digits(-5), 1);
}

#[test]
fn number_texts() {
    assert_eq!(decimal_text(0), "0");
    assert_eq!(decimal_text(18446744073709551615), "18446744073709551615");
    assert_eq!(hex_text(0x1a2b), "1a2b");
    assert_eq!(string_number(&[]), "None");
    assert_eq!(string_number(&[-3]), "-3");
    assert_eq!(string_number(&[1, 2, 3]), "[1, 2, 3]");
}

#[test]
fn rational_texts() {
    let u = uR64 { nominator: 1, denominator: 8 };
    assert_eq!(ExifRational::to_string(&u), "1/8");
    let i = <iR64 as ExifRational>::new(-3, 4);
    assert_eq!(ExifRational::to_string(&i), "-3/4");
    assert_eq!(string_rational(&vec![]), "None");
    assert_eq!(string_rational(&vec!["1/8".to_string()]), "1/8");
    assert_eq!(string_rational(&vec!["1/8".to_string(), "3/4".to_string()]), "[\"1/8\", \"3/4\"]");
}

#[test]
fn fixed_point_values() {
    let f = F64::from_ur64(&uR64 { nominator: 72, denominator: 0 });
    assert_eq!(f, F64::new(72, 1));
    assert_eq!(f.show_value(), "72");
    assert_eq!(F64::new(1, 8).show_value(), "1/8");
    let n = F64::from_ir64(&iR64 { nominator: 3, denominator: -4 });
    assert_eq!(n, F64::new(-3, 4));
    assert!(n.to_ur64().is_err());
    assert_eq!(F64::new(5, 2).to_ur64(), Ok(uR64 { nominator: 5, denominator: 2 }));
}

#[test]
fn fixed_point_compares_by_value() {
    assert_eq!(F64::new(1, 2), F64::new(2, 4));
    assert_ne!(F64::new(1, 2), F64::new(1, 3));
    assert!(F64::new(1, 3) < F64::new(1, 2));
    assert!(F64::new(-1, 2) < F64::new(0, 7));
    assert_eq!(F64::new(2, 4).den(), 4);
}
