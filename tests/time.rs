use exif_edit::{parse_datetime, parse_u16, TimeOffset};

#[test]
fn offset_parses() {
    let t = TimeOffset::from_str("+09:00").unwrap();
    assert!(t.sign);
    assert_eq!(t.hour, 9);
    assert_eq!(t.minute, 0);
    assert_eq!(t.to_string(), "+09:00");
}

#[test]
fn offset_rejects_disallowed() {
    assert!(TimeOffset::from_str("+14:30").is_none());
    assert!(TimeOffset::from_str("-13:00").is_none());
    assert!(TimeOffset::from_str("+15:00").is_none());
    assert!(TimeOffset::from_str("+09:15").is_none());
    assert!(TimeOffset::from_str("+09-00").is_none());
    assert!(TimeOffset::from_str("09:00").is_none());
    assert!(TimeOffset::from_str("+9:000").is_none());
}

#[test]
fn offset_edges() {
    assert_eq!(TimeOffset::from_str("+14:00").unwrap().to_string(), "+14:00");
    assert_eq!(TimeOffset::from_str("-12:30").unwrap().to_string(), "-12:30");
}

#[test]
fn sub_seconds_parse() {
    assert_eq!(parse_u16("123"), Some(123));
    assert_eq!(parse_u16("+5"), Some(5));
    assert_eq!(parse_u16("65535"), Some(65535));
    assert_eq!(parse_u16("65536"), None);
    assert_eq!(parse_u16(""), None);
    assert_eq!(parse_u16("+"), None);
    assert_eq!(parse_u16("1a"), None);
}

#[test]
fn capture_time_parses() {
    let d = parse_datetime("2024:05:06 07:08:09").unwrap();
    assert_eq!((d.year, d.month, d.day, d.hour, d.minute, d.second), (2024, 5, 6, 7, 8, 9));
    assert!(parse_datetime("2024-05-06 07:08:09").is_none());
}
