use exif_edit::{to_hex, UserComment, UserCommentCode};

#[test]
fn comment_codes() {
    assert_eq!(UserCommentCode::from_u64(0x4153434949000000), UserCommentCode::ASCII);
    assert_eq!(UserCommentCode::JIS.to_u64(), 0x4A49530000000000);
    let u = UserCommentCode::from_u64(0x0102030405060708);
    assert_eq!(u, UserCommentCode::Undefined([1, 2, 3, 4, 5, 6, 7, 8]));
    assert_eq!(u.to_u64(), 0x0102030405060708);
    assert_eq!(u.to_string(), "Undefined(...)");
    assert_eq!(UserCommentCode::Unicode.to_array(), [0x55, 0x6E, 0x69, 0x63, 0x6F, 0x64, 0x65, 0x00]);
    assert_eq!(UserCommentCode::from_array(&[0x4A, 0x49, 0x53, 0, 0, 0, 0, 0]), UserCommentCode::JIS);
    assert_eq!(u.all().len(), 4);
    assert_eq!(UserCommentCode::ASCII.all().len(), 3);
}

#[test]
fn comment_reads_by_code() {
    let mut v = vec![0x41, 0x53, 0x43, 0x49, 0x49, 0, 0, 0];
    v.extend_from_slice(b"hello");
    let c = UserComment::from_vec(&v).unwrap();
    assert_eq!(c.code, UserCommentCode::ASCII);
    assert_eq!(c.decoded, "hello");
    assert_eq!(c.data, v);
    let mut w = vec![1, 2, 3, 4, 5, 6, 7, 8];
    w.extend_from_slice(&[0xAB, 0x01]);
    assert_eq!(UserComment::from_vec(&w).unwrap().decoded, "0xAB, 0x01");
    let mut bad = UserCommentCode::Unicode.to_array().to_vec();
    bad.push(0xFF);
    assert_eq!(UserComment::from_vec(&bad).unwrap().decoded, "0xFF");
    assert!(UserComment::from_vec(&[1, 2, 3]).is_none());
}

#[test]
fn comment_jis_round_trip() {
    let c = UserComment::from_str("日本", &UserCommentCode::JIS);
    assert_eq!(&c.data[0..8], &[0x4A, 0x49, 0x53, 0, 0, 0, 0, 0]);
    assert_ne!(&c.data[8..], "日本".as_bytes());
    let back = UserComment::from_vec(&c.data).unwrap();
    assert_eq!(back.decoded, "日本");
}

#[test]
fn hex_listing() {
    assert_eq!(to_hex(&[0x0A, 0xFF]), "0x0A, 0xFF");
    assert_eq!(to_hex(&[]), "");
}
