use exif_edit::{uR64, DateTime, ExifEditData, ExifTagGroup, ExposureProgram, GPSAltitudeRef, NorthRef, TagEntry, TagValue, Time, F64};

fn now() -> DateTime {
    DateTime { year: 2025, month: 1, day: 2, hour: 3, minute: 4, second: 5 }
}

fn entry(group: ExifTagGroup, id: u16, value: TagValue) -> TagEntry {
    TagEntry { group, id, value }
}

fn ur(n: u32, d: u32) -> uR64 {
    uR64 { nominator: n, denominator: d }
}

fn latitude() -> TagEntry {
    entry(ExifTagGroup::GPS, 0x0002, TagValue::URational(vec![ur(35, 1), ur(30, 1), ur(45, 1)]))
}

#[test]
fn apply_writes_field_and_table() {
    let mut d = ExifEditData::empty();
    d.update_tag(entry(ExifTagGroup::GENERIC, 0x010F, TagValue::Ascii("Maker".to_string())), &now());
    assert_eq!(d.basic_image_info.make, Some("Maker".to_string()));
    assert_eq!(d.pick_value(ExifTagGroup::GENERIC, 0x010F), Some("Maker".to_string()));
    assert_eq!(d.metadata.entries.len(), 1);
    d.update_tag(entry(ExifTagGroup::GENERIC, 0x010F, TagValue::Ascii("Other".to_string())), &now());
    assert_eq!(d.metadata.entries.len(), 1);
    assert_eq!(d.pick_value(ExifTagGroup::GENERIC, 0x010F), Some("Other".to_string()));
}

#[test]
fn apply_then_retract() {
    let mut d = ExifEditData::empty();
    d.update_tag(entry(ExifTagGroup::GENERIC, 0x0100, TagValue::U32(vec![640])), &now());
    assert_eq!(d.pick_value(ExifTagGroup::GENERIC, 0x0100), Some("640".to_string()));
    d.delete_tag(ExifTagGroup::GENERIC, 0x0100);
    assert_eq!(d.basic_image_info.image_width, None);
    assert!(d.metadata.entries.is_empty());
}

#[test]
fn malformed_payload_keeps_previous() {
    let mut d = ExifEditData::empty();
    d.update_tag(latitude(), &now());
    d.update_tag(entry(ExifTagGroup::GPS, 0x0002, TagValue::URational(vec![ur(1, 1)])), &now());
    assert_eq!(d.gps_info.gps_latitude.unwrap().degree, 35);
    d.update_tag(entry(ExifTagGroup::GENERIC, 0x010F, TagValue::U16(vec![1])), &now());
    assert_eq!(d.basic_image_info.make, None);
    assert_eq!(d.metadata.entries.len(), 2);
}

#[test]
fn coordinate_seeds_reference_when_absent() {
    let mut d = ExifEditData::empty();
    d.update_tag(latitude(), &now());
    assert_eq!(d.gps_info.gps_latitude_ref, Some(true));
    d.update_tag(entry(ExifTagGroup::GPS, 0x0001, TagValue::Ascii("S".to_string())), &now());
    assert_eq!(d.gps_info.gps_latitude_ref, Some(false));
    d.update_tag(latitude(), &now());
    assert_eq!(d.gps_info.gps_latitude_ref, Some(false));
    assert_eq!(d.pick_value(ExifTagGroup::GPS, 0x0001), Some("false".to_string()));
    assert_eq!(d.pick_value(ExifTagGroup::GPS, 0x0002), None);
}

#[test]
fn retract_does_not_cascade() {
    let mut d = ExifEditData::empty();
    d.update_tag(latitude(), &now());
    d.delete_tag(ExifTagGroup::GPS, 0x0002);
    assert!(d.gps_info.gps_latitude.is_none());
    assert_eq!(d.gps_info.gps_latitude_ref, Some(true));
}

#[test]
fn altitude_seeds_reference() {
    let mut d = ExifEditData::empty();
    d.update_tag(entry(ExifTagGroup::GPS, 0x0006, TagValue::URational(vec![ur(1234, 10)])), &now());
    assert_eq!(d.gps_info.gps_altitude, Some(F64::new(1234, 10)));
    assert_eq!(d.gps_info.gps_altitude_ref, Some(GPSAltitudeRef::AboveSeaLevel));
    assert_eq!(d.pick_value(ExifTagGroup::GPS, 0x0006), Some("1234/10".to_string()));
}

#[test]
fn timestamp_seeds_sub_seconds() {
    let mut d = ExifEditData::empty();
    d.update_tag(entry(ExifTagGroup::EXIF, 0x9003, TagValue::Ascii("2024:05:06 07:08:09".to_string())), &now());
    assert_eq!(d.exif_capture_info.sub_sec_time_original, Some(0));
    d.update_tag(entry(ExifTagGroup::EXIF, 0x9291, TagValue::Ascii("250".to_string())), &now());
    d.update_tag(entry(ExifTagGroup::EXIF, 0x9003, TagValue::Ascii("2024:05:06 07:08:10".to_string())), &now());
    assert_eq!(d.exif_capture_info.sub_sec_time_original, Some(250));
    assert_eq!(d.exif_capture_info.date_time_original.unwrap().second, 10);
}

#[test]
fn unknown_tags_listed_in_order() {
    let mut d = ExifEditData::empty();
    d.update_tag(entry(ExifTagGroup::GPS, 0x00ff, TagValue::U16(vec![1, 2])), &now());
    d.update_tag(entry(ExifTagGroup::EXIF, 0xc000, TagValue::Ascii("x".to_string())), &now());
    d.update_tag(entry(ExifTagGroup::EXIF, 0x0010, TagValue::URational(vec![ur(1, 2)])), &now());
    let all = d.uneditable.unknown_all();
    assert_eq!(all.len(), 3);
    assert_eq!(all[0], ("Unknown(Exif, hex:0x10)".to_string(), "1/2".to_string()));
    assert_eq!(all[1], ("Unknown(Exif, hex:0xc000)".to_string(), "x".to_string()));
    assert_eq!(all[2], ("Unknown(GPS, hex:0xff)".to_string(), "[1, 2]".to_string()));
    d.delete_tag(ExifTagGroup::EXIF, 0xc000);
    assert_eq!(d.uneditable.unknown_all().len(), 2);
    assert_eq!(d.metadata.entries.len(), 2);
}

#[test]
fn replay_builds_record() {
    let d = ExifEditData::new(vec![
        entry(ExifTagGroup::EXIF, 0x9000, TagValue::Undefined(b"0232".to_vec())),
        entry(ExifTagGroup::EXIF, 0xA300, TagValue::Undefined(vec![3])),
        entry(ExifTagGroup::GPS, 0x0000, TagValue::U8(vec![2, 3])),
        entry(ExifTagGroup::EXIF, 0x9011, TagValue::Ascii("+09:00".to_string())),
        entry(ExifTagGroup::EXIF, 0x927C, TagValue::Undefined(vec![1, 2])),
    ], &now());
    assert_eq!(d.pick_value(ExifTagGroup::EXIF, 0x9000), Some("0232".to_string()));
    assert_eq!(d.pick_value(ExifTagGroup::EXIF, 0xA300), Some("DigitalCamera".to_string()));
    assert_eq!(d.pick_value(ExifTagGroup::GPS, 0x0000), Some("2, 3, 2, 2".to_string()));
    assert_eq!(d.pick_value(ExifTagGroup::EXIF, 0x9011), Some("+09:00".to_string()));
    assert_eq!(d.pick_value(ExifTagGroup::EXIF, 0x927C), Some("[1, 2]".to_string()));
    assert_eq!(d.metadata.entries.len(), 5);
}

#[test]
fn simple_fields_decode_first_value() {
    let mut d = ExifEditData::empty();
    d.update_tag(entry(ExifTagGroup::EXIF, 0x8827, TagValue::U16(vec![400, 800])), &now());
    d.update_tag(entry(ExifTagGroup::EXIF, 0x829D, TagValue::URational(vec![ur(28, 10)])), &now());
    d.update_tag(entry(ExifTagGroup::GENERIC, 0x0110, TagValue::Ascii("Body".to_string())), &now());
    assert_eq!(d.pick_value(ExifTagGroup::EXIF, 0x8827), Some("400, 800".to_string()));
    assert_eq!(d.pick_value(ExifTagGroup::EXIF, 0x829D), Some("28/10".to_string()));
    assert_eq!(d.pick_value(ExifTagGroup::GENERIC, 0x0110), Some("Body".to_string()));
    d.update_tag(entry(ExifTagGroup::EXIF, 0x829D, TagValue::URational(vec![])), &now());
    assert_eq!(d.exif_capture_info.f_number, Some(F64::new(28, 10)));
}

#[test]
fn payload_bytes_round_trip() {
    let v = TagValue::URational(vec![ur(1, 8), ur(300, 7)]);
    let b = v.to_be_bytes();
    assert_eq!(b, vec![0, 0, 0, 1, 0, 0, 0, 8, 0, 0, 1, 44, 0, 0, 0, 7]);
    assert_eq!(TagValue::from_be_bytes(5, &b), Some(v));
    let s = TagValue::Ascii("Cam".to_string());
    assert_eq!(s.to_be_bytes(), b"Cam\0".to_vec());
    assert_eq!(TagValue::from_be_bytes(2, b"Cam\0"), Some(s));
    assert_eq!(TagValue::from_be_bytes(8, &[0xFF, 0xFE]), Some(TagValue::I16(vec![-2])));
    assert_eq!(TagValue::from_be_bytes(3, &[1, 2, 3]), None);
    assert_eq!(TagValue::from_be_bytes(99, &[]), None);
    assert_eq!(TagValue::from_be_bytes(4, &[0, 1, 0, 0]).unwrap().format_code(), 4);
}

#[test]
fn enumerations_render_their_names() {
    let mut d = ExifEditData::empty();
    d.update_tag(entry(ExifTagGroup::EXIF, 0x8822, TagValue::U16(vec![2])), &now());
    assert_eq!(d.exif_capture_info.exposure_program, Some(ExposureProgram::from_vec(&[2])));
    assert_eq!(d.pick_value(ExifTagGroup::EXIF, 0x8822), Some(ExposureProgram::from_vec(&[2]).to_string()));
    d.update_tag(entry(ExifTagGroup::GPS, 0x000E, TagValue::Ascii("T".to_string())), &now());
    assert_eq!(d.gps_info.gps_track_ref, Some(NorthRef::TrueNorth));
}

#[test]
fn digitized_and_modified_times_seed_sub_seconds() {
    let mut d = ExifEditData::empty();
    d.update_tag(entry(ExifTagGroup::EXIF, 0x9004, TagValue::Ascii("2024:05:06 07:08:09".to_string())), &now());
    d.update_tag(entry(ExifTagGroup::GENERIC, 0x0132, TagValue::Ascii("2024:05:06 07:08:09".to_string())), &now());
    assert_eq!(d.exif_capture_info.sub_sec_time_digitized, Some(0));
    assert_eq!(d.exif_capture_info.sub_sec_time, Some(0));
    assert!(d.exif_capture_info.create_date.is_some());
}

#[test]
fn destination_and_direction_references() {
    let mut d = ExifEditData::empty();
    d.update_tag(entry(ExifTagGroup::GPS, 0x0015, TagValue::Ascii("W".to_string())), &now());
    d.update_tag(entry(ExifTagGroup::GPS, 0x0016, TagValue::URational(vec![ur(1, 1), ur(2, 1), ur(3, 1)])), &now());
    assert_eq!(d.gps_info.gps_dest_longitude_ref, Some(false));
    assert_eq!(d.pick_value(ExifTagGroup::GPS, 0x0015), Some("false".to_string()));
    d.update_tag(entry(ExifTagGroup::GPS, 0x0014, TagValue::URational(vec![ur(1, 1), ur(2, 1), ur(3, 1)])), &now());
    assert_eq!(d.gps_info.gps_dest_latitude_ref, Some(true));
    d.update_tag(entry(ExifTagGroup::GPS, 0x0011, TagValue::URational(vec![ur(90, 1)])), &now());
    assert_eq!(d.gps_info.gps_img_direction_ref, Some(NorthRef::MagneticNorth));
}

#[test]
fn gps_date_and_time_seed_each_other() {
    let mut d = ExifEditData::empty();
    d.update_tag(entry(ExifTagGroup::GPS, 0x001d, TagValue::Ascii("2020:01:02".to_string())), &now());
    assert_eq!(d.gps_info.gps_time_stamp, Some(Time { hour: 3, minute: 4, second: 5, milli: 0 }));
    d.update_tag(entry(ExifTagGroup::GPS, 0x0007, TagValue::URational(vec![ur(10, 1), ur(20, 1), ur(305, 10)])), &now());
    assert_eq!(d.gps_info.gps_time_stamp, Some(Time { hour: 10, minute: 20, second: 30, milli: 500 }));
    assert_eq!(d.gps_info.gps_date_stamp.unwrap().year, 2020);
}

#[test]
fn thumbnail_and_padded_arrays() {
    let mut d = ExifEditData::empty();
    d.update_tag(entry(ExifTagGroup::GENERIC, 0x0202, TagValue::U32(vec![1234])), &now());
    assert_eq!(d.pick_value(ExifTagGroup::GENERIC, 0x0202), Some("1234".to_string()));
    d.update_tag(entry(ExifTagGroup::GENERIC, 0x013E, TagValue::URational(vec![ur(1, 2)])), &now());
    assert_eq!(d.pick_value(ExifTagGroup::GENERIC, 0x013E), Some("1/2, 1/2".to_string()));
}
