use exif_edit::{AllList, ExposureProgram, NorthRef};
use exif_edit::{FileSource, GPSAltitudeRef, GPSSpeedRef, InteroperabilityIndex, Orientation, ResolutionUnit, YCbCrSubSampling};

#[test]
fn named_code_decodes_and_encodes() {
    let u = ResolutionUnit::from_vec(&[2]);
    assert_eq!(u, ResolutionUnit::Inches);
    assert_eq!(u.to_vec(), vec![2]);
    assert_eq!(u.to_string(), "Inches");
    assert_eq!(Orientation::from_vec(&[6]), Orientation::Rotate90CW);
}

#[test]
fn unrecognised_code_is_kept() {
    let u = ResolutionUnit::from_vec(&[7]);
    assert_eq!(u, ResolutionUnit::UnknownValue(vec![7]));
    assert_eq!(u.to_vec(), vec![7]);
    assert_eq!(u.to_string(), "UnknownValue[7]");
    let two = Orientation::from_vec(&[1, 2]);
    assert_eq!(two.to_vec(), vec![1, 2]);
    assert_eq!(two.to_string(), "UnknownValue[1, 2]");
}

#[test]
fn unknown_default_and_listing() {
    let u = ResolutionUnit::unknown();
    assert_eq!(u.to_vec(), vec![0]);
    let all = u.all();
    assert_eq!(all.len(), 4);
    assert_eq!(all[0], (1, ResolutionUnit::NoUnit));
    assert_eq!(all[3], (0, ResolutionUnit::UnknownValue(vec![0])));
    assert_eq!(ResolutionUnit::Inches.all().len(), 3);
    assert_eq!(ResolutionUnit::from_u16(3), ResolutionUnit::cm);
    assert_eq!(ResolutionUnit::cm.to_u16(), 3);
}

#[test]
fn byte_codes_widen() {
    assert_eq!(GPSAltitudeRef::from_u8_vec(&[1]), GPSAltitudeRef::BelowSeaLevel);
    assert_eq!(GPSAltitudeRef::from_u8_vec(&[9]), GPSAltitudeRef::UnknownValue(vec![9]));
}

#[test]
fn file_source_four_byte_form() {
    assert_eq!(FileSource::from_vec(&[3, 0, 0, 0]), FileSource::SigmaDigitalCamera);
    assert_eq!(FileSource::SigmaDigitalCamera.to_vec(), vec![3, 0, 0, 0]);
    assert_eq!(FileSource::from_u8_vec(&[3]), FileSource::DigitalCamera);
    assert_eq!(FileSource::from_vec(&[3, 1]).to_string(), "UnknownValue[3, 1]");
    assert_eq!(FileSource::unknown().to_vec(), vec![0]);
    assert_eq!(FileSource::DigitalCamera.all().len(), 4);
    assert_eq!(FileSource::from_u16(4), FileSource::SigmaDigitalCamera);
    assert_eq!(FileSource::SigmaDigitalCamera.to_u16(), 4);
    let u = FileSource::from_vec(&[7]);
    assert_eq!(u.all()[4], (5, FileSource::UnknownValue(vec![7])));
}

#[test]
fn subsampling_pairs() {
    let y = YCbCrSubSampling::from_vec(&[2, 1]);
    assert_eq!(y, YCbCrSubSampling::YCbCr422_21);
    assert_eq!(y.to_string(), "YCbCr4:2:2 (2 1)");
    assert_eq!(y.to_vec(), vec![2, 1]);
    let u = YCbCrSubSampling::from_vec(&[3, 3]);
    assert_eq!(u.to_string(), "Unknown([3, 3])");
    assert_eq!(YCbCrSubSampling::unknown().to_vec(), vec![0, 0]);
    assert_eq!(YCbCrSubSampling::from_u16(4), YCbCrSubSampling::YCbCr420_22);
    assert_eq!(YCbCrSubSampling::from_u16(20), YCbCrSubSampling::Unknown(vec![20]));
    assert_eq!(u.all().len(), 9);
    assert_eq!(u.to_u16(), 8);
}

#[test]
fn string_codes_fall_back_to_default() {
    assert_eq!(GPSSpeedRef::from_str("M"), GPSSpeedRef::mph);
    assert_eq!(GPSSpeedRef::from_str("X"), GPSSpeedRef::km_h);
    assert_eq!(GPSSpeedRef::knots.to_str(), "N");
    assert_eq!(GPSSpeedRef::from_u16(2), GPSSpeedRef::knots);
    assert_eq!(GPSSpeedRef::from_u16(9), GPSSpeedRef::km_h);
    assert_eq!(InteroperabilityIndex::from_str("R98"), InteroperabilityIndex::R98_DCFBasicFile_sRGB);
    assert_eq!(InteroperabilityIndex::THM_DCFThunmnailFile.to_u16(), 2);
    assert_eq!(GPSSpeedRef::mph.all().len(), 3);
}

fn listed<T: exif_edit::AllList>(x: &T) -> usize {
    x.all().len()
}

#[test]
fn listing_interface() {
    assert_eq!(listed(&ExposureProgram::Manual), 10);
    assert_eq!(listed(&ExposureProgram::from_vec(&[99])), 11);
    assert_eq!(<NorthRef as AllList>::from_u16(1), NorthRef::TrueNorth);
    assert_eq!(AllList::to_u16(&FileSource::SigmaDigitalCamera), 4);
}
