use exif_edit::{cfa_str, load_components_configuration, CFAPattern, ComponentsConfiguration, CFA};

#[test]
fn mosaic_decodes() {
    let p = CFAPattern::from_vec(&[0, 2, 0, 2, 0, 1, 2, 3]).unwrap();
    assert_eq!(p.row, 2);
    assert_eq!(p.column, 2);
    assert_eq!(p.cfa, vec![CFA::Red, CFA::Green, CFA::Blue, CFA::Cyan]);
}

#[test]
fn mosaic_length_must_agree() {
    assert!(CFAPattern::from_vec(&[0, 2, 0, 3, 0, 1, 2, 3]).is_none());
    assert!(CFAPattern::from_vec(&[0, 2, 0]).is_none());
}

#[test]
fn mosaic_round_trip() {
    let bytes = vec![0, 2, 0, 1, 1, 200];
    let p = CFAPattern::from_vec(&bytes).unwrap();
    assert_eq!(p.cfa[1], CFA::UnknownValue(vec![200]));
    assert_eq!(p.to_vec(), bytes);
    let empty = CFAPattern::from_vec(&[0, 0, 0, 5]).unwrap();
    assert_eq!(empty.cfa.len(), 0);
    assert_eq!(empty.to_vec(), vec![0, 0, 0, 5]);
}

#[test]
fn components_need_four_bytes() {
    let c = load_components_configuration(&[1, 2, 3, 0]).unwrap();
    assert_eq!(c[0], ComponentsConfiguration::Y);
    assert_eq!(c[3], ComponentsConfiguration::Unused);
    let u = load_components_configuration(&[9, 2, 3, 0]).unwrap();
    assert_eq!(u[0], ComponentsConfiguration::UnknownValue(vec![9]));
    assert!(load_components_configuration(&[1, 2, 3]).is_none());
}

#[test]
fn mosaic_text() {
    let p = CFAPattern::from_vec(&[0, 1, 0, 3, 0, 1, 9]).unwrap();
    assert_eq!(cfa_str(&p), ("1".to_string(), "3".to_string(), "Red, Green, 9".to_string()));
}
