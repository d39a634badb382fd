//! The structured record and the three operations that keep it in step with the raw table:
//! apply, retract and query as text.
use vstd::prelude::*;
use vstd::utf8::{valid_utf8, decode_utf8};
use crate::codec::{ResolutionUnit, Orientation, ComponentsConfiguration, GPSAltitudeRef, GPSSpeedRef, InteroperabilityIndex, YCbCrSubSampling, FileSource};
use crate::enums::{ColorSpace, CompositeImage, Compression, Contrast, CustomRendered, ExposureMode, ExposureProgram, Flash, FocalPlaneResolutionUnit, GPSDestDistanceRef, GPSDifferential, GPSMeasureMode, GPSStatus, GainControl, LightSource, MeteringMode, NorthRef, PhotometricInterpretation, PlanarConfiguration, Saturation, SceneCaptureType, SceneType, SensingMethod, SensitivityType, Sharpness, WhiteBalance, YCbCrPositioning};
use crate::gps::{DMS, gps_ref};
use crate::pattern::CFAPattern;
use crate::rational::{uR64, F64};
use crate::render::{payload_text, payload_string, ints_u8, ints_u16, ints_u32};
use crate::tag::{ExifTagGroup, TagKey, TagValue, TagEntry, Metadata};
use crate::text::{dec, join_dec, list_dec, list_text, decimal_text, join_text};
use vstd::string::StringExecFns;
use crate::time::{Date, DateTime, Time, TimeOffset, exif_date, exif_datetime, parse_date, parse_datetime, parse_time, parse_u16, parse_u16_spec, time_of};
use crate::user::UserComment;
use crate::vault::Uneditable;

verus! {

/// Device and image-format information.
#[derive(Clone, Debug, PartialEq)]
pub struct BasicImageInfo {
    pub make: Option<String>,
    pub model: Option<String>,
    pub software: Option<String>,
    pub image_width: Option<u32>,
    pub image_height: Option<u32>,
    pub exif_image_width: Option<u16>,
    pub exif_image_height: Option<u16>,
    pub x_resolution: Option<F64>,
    pub y_resolution: Option<F64>,
    pub resolution_unit: Option<ResolutionUnit>,
    pub compression: Option<Compression>,
    pub photometric_interpretation: Option<PhotometricInterpretation>,
    pub color_space: Option<ColorSpace>,
    pub bits_per_sample: Option<Vec<u16>>,
    pub samples_per_pixel: Option<u16>,
    pub planar_configuration: Option<PlanarConfiguration>,
    pub ycbcr_sub_sampling: Option<YCbCrSubSampling>,
    pub ycbcr_positioning: Option<YCbCrPositioning>,
    pub ycbcr_coefficients: Option<Vec<F64>>,
    pub transfer_function: Option<Vec<u16>>,
    pub white_point: Option<Vec<F64>>,
    pub primary_chromaticities: Option<Vec<F64>>,
    pub reference_black_white: Option<Vec<F64>>,
    pub color_map: Option<Vec<u16>>,
    pub strip_offsets: Option<Vec<u32>>,
    pub strip_byte_counts: Option<Vec<u32>>,
    pub rows_per_strip: Option<u32>,
    pub orientation: Option<Orientation>,
    pub cell_width: Option<u16>,
    pub cell_height: Option<u16>,
    pub serial_number: Option<String>,
    pub owner_name: Option<String>,
    pub lens_info: Option<Vec<F64>>,
}

impl BasicImageInfo {
    pub fn new() -> (r: Self)
        ensures
            r.make is None,
            r.model is None,
            r.software is None,
            r.image_width is None,
            r.image_height is None,
            r.exif_image_width is None,
            r.exif_image_height is None,
            r.x_resolution is None,
            r.y_resolution is None,
            r.resolution_unit is None,
            r.compression is None,
            r.photometric_interpretation is None,
            r.color_space is None,
            r.bits_per_sample is None,
            r.samples_per_pixel is None,
            r.planar_configuration is None,
            r.ycbcr_sub_sampling is None,
            r.ycbcr_positioning is None,
            r.ycbcr_coefficients is None,
            r.transfer_function is None,
            r.white_point is None,
            r.primary_chromaticities is None,
            r.reference_black_white is None,
            r.color_map is None,
            r.strip_offsets is None,
            r.strip_byte_counts is None,
            r.rows_per_strip is None,
            r.orientation is None,
            r.cell_width is None,
            r.cell_height is None,
            r.serial_number is None,
            r.owner_name is None,
            r.lens_info is None,
    {
        BasicImageInfo {
            make: None,
            model: None,
            software: None,
            image_width: None,
            image_height: None,
            exif_image_width: None,
            exif_image_height: None,
            x_resolution: None,
            y_resolution: None,
            resolution_unit: None,
            compression: None,
            photometric_interpretation: None,
            color_space: None,
            bits_per_sample: None,
            samples_per_pixel: None,
            planar_configuration: None,
            ycbcr_sub_sampling: None,
            ycbcr_positioning: None,
            ycbcr_coefficients: None,
            transfer_function: None,
            white_point: None,
            primary_chromaticities: None,
            reference_black_white: None,
            color_map: None,
            strip_offsets: None,
            strip_byte_counts: None,
            rows_per_strip: None,
            orientation: None,
            cell_width: None,
            cell_height: None,
            serial_number: None,
            owner_name: None,
            lens_info: None,
        }
    }
}

/// When and how the image was captured.
#[derive(Clone, Debug, PartialEq)]
pub struct ExifCaptureInfo {
    pub date_time_original: Option<DateTime>,
    pub offset_time_original: Option<TimeOffset>,
    pub sub_sec_time_original: Option<u16>,
    pub create_date: Option<DateTime>,
    pub offset_time_digitized: Option<TimeOffset>,
    pub sub_sec_time_digitized: Option<u16>,
    pub modify_date: Option<DateTime>,
    pub offset_time: Option<TimeOffset>,
    pub sub_sec_time: Option<u16>,
    pub lens_make: Option<String>,
    pub lens_model: Option<String>,
    pub lens_serial_number: Option<String>,
    pub max_aperture_value: Option<F64>,
    pub exposure_program: Option<ExposureProgram>,
    pub exposure_mode: Option<ExposureMode>,
    pub exposure_time: Option<F64>,
    pub shutter_speed_value: Option<F64>,
    pub f_number: Option<F64>,
    pub aperture_value: Option<F64>,
    pub exposure_compensation: Option<F64>,
    pub brightness_value: Option<F64>,
    pub metering_mode: Option<MeteringMode>,
    pub light_source: Option<LightSource>,
    pub flash: Option<Flash>,
    pub focal_length: Option<F64>,
    pub subject_area: Option<Vec<u16>>,
    pub subject_location: Option<Vec<u16>>,
    pub sensitivity_type: Option<SensitivityType>,
    pub iso: Option<Vec<u16>>,
    pub iso_speed: Option<u32>,
    pub standard_output_sensitivity: Option<u32>,
    pub recommended_exposure_index: Option<u32>,
    pub exposure_index: Option<F64>,
    pub iso_speed_latitude_yyy: Option<u32>,
    pub iso_speed_latitude_zzz: Option<u32>,
    pub exif_version: Option<String>,
    pub flashpix_version: Option<String>,
    pub exif_offset: Option<u32>,
    pub components_configuration: Option<[ComponentsConfiguration; 4]>,
    pub compressed_bits_per_pixel: Option<F64>,
    pub sensing_method: Option<SensingMethod>,
    pub file_source: Option<FileSource>,
    pub scene_type: Option<SceneType>,
    pub cfa_pattern: Option<CFAPattern>,
    pub ambient_temperature: Option<F64>,
    pub humidity: Option<F64>,
    pub pressure: Option<F64>,
    pub water_depth: Option<F64>,
    pub acceleration: Option<F64>,
    pub camera_elevation_angle: Option<F64>,
    pub spectral_sensitivity: Option<String>,
    pub oecf: Option<Vec<u8>>,
    pub subject_distance: Option<F64>,
    pub subject_distance_range: Option<u16>,
    pub flash_energy: Option<F64>,
    pub spatial_frequency_response: Option<Vec<u16>>,
    pub focal_plane_x_resolution: Option<F64>,
    pub focal_plane_y_resolution: Option<F64>,
    pub focal_plane_resolution_unit: Option<FocalPlaneResolutionUnit>,
    pub white_balance: Option<WhiteBalance>,
    pub digital_zoom_ratio: Option<F64>,
    pub focal_length_in_35mm_format: Option<u16>,
    pub scene_capture_type: Option<SceneCaptureType>,
    pub gain_control: Option<GainControl>,
    pub contrast: Option<Contrast>,
    pub saturation: Option<Saturation>,
    pub sharpness: Option<Sharpness>,
    pub custom_rendered: Option<CustomRendered>,
    pub device_setting_description: Option<Vec<u8>>,
    pub gamma: Option<F64>,
    pub related_sound_file: Option<String>,
    pub image_unique_id: Option<String>,
    pub composite_image: Option<CompositeImage>,
    pub composite_image_count: Option<Vec<u16>>,
    pub composite_image_exposure_times: Option<Vec<u8>>,
}

impl ExifCaptureInfo {
    pub fn new() -> (r: Self)
        ensures
            r.date_time_original is None,
            r.offset_time_original is None,
            r.sub_sec_time_original is None,
            r.create_date is None,
            r.offset_time_digitized is None,
            r.sub_sec_time_digitized is None,
            r.modify_date is None,
            r.offset_time is None,
            r.sub_sec_time is None,
            r.lens_make is None,
            r.lens_model is None,
            r.lens_serial_number is None,
            r.max_aperture_value is None,
            r.exposure_program is None,
            r.exposure_mode is None,
            r.exposure_time is None,
            r.shutter_speed_value is None,
            r.f_number is None,
            r.aperture_value is None,
            r.exposure_compensation is None,
            r.brightness_value is None,
            r.metering_mode is None,
            r.light_source is None,
            r.flash is None,
            r.focal_length is None,
            r.subject_area is None,
            r.subject_location is None,
            r.sensitivity_type is None,
            r.iso is None,
            r.iso_speed is None,
            r.standard_output_sensitivity is None,
            r.recommended_exposure_index is None,
            r.exposure_index is None,
            r.iso_speed_latitude_yyy is None,
            r.iso_speed_latitude_zzz is None,
            r.exif_version is None,
            r.flashpix_version is None,
            r.exif_offset is None,
            r.components_configuration is None,
            r.compressed_bits_per_pixel is None,
            r.sensing_method is None,
            r.file_source is None,
            r.scene_type is None,
            r.cfa_pattern is None,
            r.ambient_temperature is None,
            r.humidity is None,
            r.pressure is None,
            r.water_depth is None,
            r.acceleration is None,
            r.camera_elevation_angle is None,
            r.spectral_sensitivity is None,
            r.oecf is None,
            r.subject_distance is None,
            r.subject_distance_range is None,
            r.flash_energy is None,
            r.spatial_frequency_response is None,
            r.focal_plane_x_resolution is None,
            r.focal_plane_y_resolution is None,
            r.focal_plane_resolution_unit is None,
            r.white_balance is None,
            r.digital_zoom_ratio is None,
            r.focal_length_in_35mm_format is None,
            r.scene_capture_type is None,
            r.gain_control is None,
            r.contrast is None,
            r.saturation is None,
            r.sharpness is None,
            r.custom_rendered is None,
            r.device_setting_description is None,
            r.gamma is None,
            r.related_sound_file is None,
            r.image_unique_id is None,
            r.composite_image is None,
            r.composite_image_count is None,
            r.composite_image_exposure_times is None,
    {
        ExifCaptureInfo {
            date_time_original: None,
            offset_time_original: None,
            sub_sec_time_original: None,
            create_date: None,
            offset_time_digitized: None,
            sub_sec_time_digitized: None,
            modify_date: None,
            offset_time: None,
            sub_sec_time: None,
            lens_make: None,
            lens_model: None,
            lens_serial_number: None,
            max_aperture_value: None,
            exposure_program: None,
            exposure_mode: None,
            exposure_time: None,
            shutter_speed_value: None,
            f_number: None,
            aperture_value: None,
            exposure_compensation: None,
            brightness_value: None,
            metering_mode: None,
            light_source: None,
            flash: None,
            focal_length: None,
            subject_area: None,
            subject_location: None,
            sensitivity_type: None,
            iso: None,
            iso_speed: None,
            standard_output_sensitivity: None,
            recommended_exposure_index: None,
            exposure_index: None,
            iso_speed_latitude_yyy: None,
            iso_speed_latitude_zzz: None,
            exif_version: None,
            flashpix_version: None,
            exif_offset: None,
            components_configuration: None,
            compressed_bits_per_pixel: None,
            sensing_method: None,
            file_source: None,
            scene_type: None,
            cfa_pattern: None,
            ambient_temperature: None,
            humidity: None,
            pressure: None,
            water_depth: None,
            acceleration: None,
            camera_elevation_angle: None,
            spectral_sensitivity: None,
            oecf: None,
            subject_distance: None,
            subject_distance_range: None,
            flash_energy: None,
            spatial_frequency_response: None,
            focal_plane_x_resolution: None,
            focal_plane_y_resolution: None,
            focal_plane_resolution_unit: None,
            white_balance: None,
            digital_zoom_ratio: None,
            focal_length_in_35mm_format: None,
            scene_capture_type: None,
            gain_control: None,
            contrast: None,
            saturation: None,
            sharpness: None,
            custom_rendered: None,
            device_setting_description: None,
            gamma: None,
            related_sound_file: None,
            image_unique_id: None,
            composite_image: None,
            composite_image_count: None,
            composite_image_exposure_times: None,
        }
    }
}

/// Where the image was taken.
#[derive(Clone, Debug, PartialEq)]
pub struct GpsInfo {
    pub gps_latitude_ref: Option<bool>,
    pub gps_latitude: Option<DMS>,
    pub gps_longitude_ref: Option<bool>,
    pub gps_longitude: Option<DMS>,
    pub gps_map_datum: Option<String>,
    pub gps_altitude_ref: Option<GPSAltitudeRef>,
    pub gps_altitude: Option<F64>,
    pub gps_satellites: Option<String>,
    pub gps_status: Option<GPSStatus>,
    pub gps_measure_mode: Option<GPSMeasureMode>,
    pub gps_dop: Option<F64>,
    pub gps_speed_ref: Option<GPSSpeedRef>,
    pub gps_speed: Option<F64>,
    pub gps_track_ref: Option<NorthRef>,
    pub gps_track: Option<F64>,
    pub gps_img_direction_ref: Option<NorthRef>,
    pub gps_img_direction: Option<F64>,
    pub gps_dest_latitude_ref: Option<bool>,
    pub gps_dest_latitude: Option<DMS>,
    pub gps_dest_longitude_ref: Option<bool>,
    pub gps_dest_longitude: Option<DMS>,
    pub gps_dest_bearing_ref: Option<NorthRef>,
    pub gps_dest_bearing: Option<F64>,
    pub gps_dest_distance_ref: Option<GPSDestDistanceRef>,
    pub gps_dest_distance: Option<F64>,
    pub gps_processing_method: Option<Vec<u8>>,
    pub gps_area_information: Option<Vec<u8>>,
    pub gps_date_stamp: Option<Date>,
    pub gps_time_stamp: Option<Time>,
    pub gps_differential: Option<GPSDifferential>,
    pub gps_h_positioning_error: Option<F64>,
    pub gps_version_id: Option<Vec<u8>>,
    pub gps_info: Option<u32>,
}

impl GpsInfo {
    pub fn new() -> (r: Self)
        ensures
            r.gps_latitude_ref is None,
            r.gps_latitude is None,
            r.gps_longitude_ref is None,
            r.gps_longitude is None,
            r.gps_map_datum is None,
            r.gps_altitude_ref is None,
            r.gps_altitude is None,
            r.gps_satellites is None,
            r.gps_status is None,
            r.gps_measure_mode is None,
            r.gps_dop is None,
            r.gps_speed_ref is None,
            r.gps_speed is None,
            r.gps_track_ref is None,
            r.gps_track is None,
            r.gps_img_direction_ref is None,
            r.gps_img_direction is None,
            r.gps_dest_latitude_ref is None,
            r.gps_dest_latitude is None,
            r.gps_dest_longitude_ref is None,
            r.gps_dest_longitude is None,
            r.gps_dest_bearing_ref is None,
            r.gps_dest_bearing is None,
            r.gps_dest_distance_ref is None,
            r.gps_dest_distance is None,
            r.gps_processing_method is None,
            r.gps_area_information is None,
            r.gps_date_stamp is None,
            r.gps_time_stamp is None,
            r.gps_differential is None,
            r.gps_h_positioning_error is None,
            r.gps_version_id is None,
            r.gps_info is None,
    {
        GpsInfo {
            gps_latitude_ref: None,
            gps_latitude: None,
            gps_longitude_ref: None,
            gps_longitude: None,
            gps_map_datum: None,
            gps_altitude_ref: None,
            gps_altitude: None,
            gps_satellites: None,
            gps_status: None,
            gps_measure_mode: None,
            gps_dop: None,
            gps_speed_ref: None,
            gps_speed: None,
            gps_track_ref: None,
            gps_track: None,
            gps_img_direction_ref: None,
            gps_img_direction: None,
            gps_dest_latitude_ref: None,
            gps_dest_latitude: None,
            gps_dest_longitude_ref: None,
            gps_dest_longitude: None,
            gps_dest_bearing_ref: None,
            gps_dest_bearing: None,
            gps_dest_distance_ref: None,
            gps_dest_distance: None,
            gps_processing_method: None,
            gps_area_information: None,
            gps_date_stamp: None,
            gps_time_stamp: None,
            gps_differential: None,
            gps_h_positioning_error: None,
            gps_version_id: None,
            gps_info: None,
        }
    }
}

/// Which rule set the file follows.
#[derive(Clone, Debug, PartialEq)]
pub struct InteropInfo {
    pub interop_offset: Option<u32>,
    pub interoperability_index: Option<InteroperabilityIndex>,
    pub interoperability_version: Option<Vec<u8>>,
}

impl InteropInfo {
    pub fn new() -> (r: Self)
        ensures
            r.interop_offset is None,
            r.interoperability_index is None,
            r.interoperability_version is None,
    {
        InteropInfo {
            interop_offset: None,
            interoperability_index: None,
            interoperability_version: None,
        }
    }
}

/// Where the thumbnail image lies.
#[derive(Clone, Debug, PartialEq)]
pub struct ThumbnailInfo {
    pub thumbnail_offset: Option<Vec<u32>>,
    pub thumbnail_length: Option<u32>,
}

impl ThumbnailInfo {
    pub fn new() -> (r: Self)
        ensures
            r.thumbnail_offset is None,
            r.thumbnail_length is None,
    {
        ThumbnailInfo {
            thumbnail_offset: None,
            thumbnail_length: None,
        }
    }
}

/// Text written by people.
#[derive(Clone, Debug, PartialEq)]
pub struct UserInfo {
    pub image_description: Option<String>,
    pub artist: Option<String>,
    pub copyright: Option<String>,
    pub user_comment: Option<UserComment>,
}

impl UserInfo {
    pub fn new() -> (r: Self)
        ensures
            r.image_description is None,
            r.artist is None,
            r.copyright is None,
            r.user_comment is None,
    {
        UserInfo {
            image_description: None,
            artist: None,
            copyright: None,
            user_comment: None,
        }
    }
}

/// A structured field of the record, one per tag identifier of the schema.
#[derive(Clone, Copy, Debug, PartialEq, Eq, Structural)]
pub enum Field {
    Make,
    Model,
    Software,
    ImageWidth,
    ImageHeight,
    ExifImageWidth,
    ExifImageHeight,
    XResolution,
    YResolution,
    ResolutionUnit,
    Compression,
    PhotometricInterpretation,
    ColorSpace,
    BitsPerSample,
    SamplesPerPixel,
    PlanarConfiguration,
    YCbCrSubSampling,
    YCbCrPositioning,
    YCbCrCoefficients,
    TransferFunction,
    WhitePoint,
    PrimaryChromaticities,
    ReferenceBlackWhite,
    ColorMap,
    StripOffsets,
    StripByteCounts,
    RowsPerStrip,
    Orientation,
    CellWidth,
    CellHeight,
    SerialNumber,
    OwnerName,
    LensInfo,
    DateTimeOriginal,
    OffsetTimeOriginal,
    SubSecTimeOriginal,
    CreateDate,
    OffsetTimeDigitized,
    SubSecTimeDigitized,
    ModifyDate,
    OffsetTime,
    SubSecTime,
    LensMake,
    LensModel,
    LensSerialNumber,
    MaxApertureValue,
    ExposureProgram,
    ExposureMode,
    ExposureTime,
    ShutterSpeedValue,
    FNumber,
    ApertureValue,
    ExposureCompensation,
    BrightnessValue,
    MeteringMode,
    LightSource,
    Flash,
    FocalLength,
    SubjectArea,
    SubjectLocation,
    SensitivityType,
    ISO,
    ISOSpeed,
    StandardOutputSensitivity,
    RecommendedExposureIndex,
    ExposureIndex,
    ISOSpeedLatitudeyyy,
    ISOSpeedLatitudezzz,
    ExifVersion,
    FlashpixVersion,
    ExifOffset,
    ComponentsConfiguration,
    CompressedBitsPerPixel,
    SensingMethod,
    FileSource,
    SceneType,
    CFAPattern,
    AmbientTemperature,
    Humidity,
    Pressure,
    WaterDepth,
    Acceleration,
    CameraElevationAngle,
    SpectralSensitivity,
    OECF,
    SubjectDistance,
    SubjectDistanceRange,
    FlashEnergy,
    SpatialFrequencyResponse,
    FocalPlaneXResolution,
    FocalPlaneYResolution,
    FocalPlaneResolutionUnit,
    WhiteBalance,
    DigitalZoomRatio,
    FocalLengthIn35mmFormat,
    SceneCaptureType,
    GainControl,
    Contrast,
    Saturation,
    Sharpness,
    CustomRendered,
    DeviceSettingDescription,
    Gamma,
    RelatedSoundFile,
    ImageUniqueID,
    CompositeImage,
    CompositeImageCount,
    CompositeImageExposureTimes,
    GPSLatitudeRef,
    GPSLatitude,
    GPSLongitudeRef,
    GPSLongitude,
    GPSMapDatum,
    GPSAltitudeRef,
    GPSAltitude,
    GPSSatellites,
    GPSStatus,
    GPSMeasureMode,
    GPSDOP,
    GPSSpeedRef,
    GPSSpeed,
    GPSTrackRef,
    GPSTrack,
    GPSImgDirectionRef,
    GPSImgDirection,
    GPSDestLatitudeRef,
    GPSDestLatitude,
    GPSDestLongitudeRef,
    GPSDestLongitude,
    GPSDestBearingRef,
    GPSDestBearing,
    GPSDestDistanceRef,
    GPSDestDistance,
    GPSProcessingMethod,
    GPSAreaInformation,
    GPSDateStamp,
    GPSTimeStamp,
    GPSDifferential,
    GPSHPositioningError,
    GPSVersionID,
    GPSInfo,
    InteropOffset,
    InteroperabilityIndex,
    InteroperabilityVersion,
    ThumbnailOffset,
    ThumbnailLength,
    ImageDescription,
    Artist,
    Copyright,
    UserComment,
    MakerNote,
}

/// The field a tag identifier owns, if the schema has one.
pub open spec fn field_of(k: TagKey) -> Option<Field> {
    if k == (ExifTagGroup::GENERIC, 0x010fu16) {
        Some(Field::Make)
    } else if k == (ExifTagGroup::GENERIC, 0x0110u16) {
        Some(Field::Model)
    } else if k == (ExifTagGroup::GENERIC, 0x0131u16) {
        Some(Field::Software)
    } else if k == (ExifTagGroup::GENERIC, 0x0100u16) {
        Some(Field::ImageWidth)
    } else if k == (ExifTagGroup::GENERIC, 0x0101u16) {
        Some(Field::ImageHeight)
    } else if k == (ExifTagGroup::EXIF, 0xa002u16) {
        Some(Field::ExifImageWidth)
    } else if k == (ExifTagGroup::EXIF, 0xa003u16) {
        Some(Field::ExifImageHeight)
    } else if k == (ExifTagGroup::GENERIC, 0x011au16) {
        Some(Field::XResolution)
    } else if k == (ExifTagGroup::GENERIC, 0x011bu16) {
        Some(Field::YResolution)
    } else if k == (ExifTagGroup::GENERIC, 0x0128u16) {
        Some(Field::ResolutionUnit)
    } else if k == (ExifTagGroup::GENERIC, 0x0103u16) {
        Some(Field::Compression)
    } else if k == (ExifTagGroup::GENERIC, 0x0106u16) {
        Some(Field::PhotometricInterpretation)
    } else if k == (ExifTagGroup::EXIF, 0xa001u16) {
        Some(Field::ColorSpace)
    } else if k == (ExifTagGroup::GENERIC, 0x0102u16) {
        Some(Field::BitsPerSample)
    } else if k == (ExifTagGroup::GENERIC, 0x0115u16) {
        Some(Field::SamplesPerPixel)
    } else if k == (ExifTagGroup::GENERIC, 0x011cu16) {
        Some(Field::PlanarConfiguration)
    } else if k == (ExifTagGroup::GENERIC, 0x0212u16) {
        Some(Field::YCbCrSubSampling)
    } else if k == (ExifTagGroup::GENERIC, 0x0213u16) {
        Some(Field::YCbCrPositioning)
    } else if k == (ExifTagGroup::GENERIC, 0x0211u16) {
        Some(Field::YCbCrCoefficients)
    } else if k == (ExifTagGroup::GENERIC, 0x012du16) {
        Some(Field::TransferFunction)
    } else if k == (ExifTagGroup::GENERIC, 0x013eu16) {
        Some(Field::WhitePoint)
    } else if k == (ExifTagGroup::GENERIC, 0x013fu16) {
        Some(Field::PrimaryChromaticities)
    } else if k == (ExifTagGroup::GENERIC, 0x0214u16) {
        Some(Field::ReferenceBlackWhite)
    } else if k == (ExifTagGroup::GENERIC, 0x0140u16) {
        Some(Field::ColorMap)
    } else if k == (ExifTagGroup::GENERIC, 0x0111u16) {
        Some(Field::StripOffsets)
    } else if k == (ExifTagGroup::GENERIC, 0x0117u16) {
        Some(Field::StripByteCounts)
    } else if k == (ExifTagGroup::GENERIC, 0x0116u16) {
        Some(Field::RowsPerStrip)
    } else if k == (ExifTagGroup::GENERIC, 0x0112u16) {
        Some(Field::Orientation)
    } else if k == (ExifTagGroup::GENERIC, 0x0108u16) {
        Some(Field::CellWidth)
    } else if k == (ExifTagGroup::GENERIC, 0x0109u16) {
        Some(Field::CellHeight)
    } else if k == (ExifTagGroup::EXIF, 0xa431u16) {
        Some(Field::SerialNumber)
    } else if k == (ExifTagGroup::EXIF, 0xa430u16) {
        Some(Field::OwnerName)
    } else if k == (ExifTagGroup::EXIF, 0xa432u16) {
        Some(Field::LensInfo)
    } else if k == (ExifTagGroup::EXIF, 0x9003u16) {
        Some(Field::DateTimeOriginal)
    } else if k == (ExifTagGroup::EXIF, 0x9011u16) {
        Some(Field::OffsetTimeOriginal)
    } else if k == (ExifTagGroup::EXIF, 0x9291u16) {
        Some(Field::SubSecTimeOriginal)
    } else if k == (ExifTagGroup::EXIF, 0x9004u16) {
        Some(Field::CreateDate)
    } else if k == (ExifTagGroup::EXIF, 0x9012u16) {
        Some(Field::OffsetTimeDigitized)
    } else if k == (ExifTagGroup::EXIF, 0x9292u16) {
        Some(Field::SubSecTimeDigitized)
    } else if k == (ExifTagGroup::GENERIC, 0x0132u16) {
        Some(Field::ModifyDate)
    } else if k == (ExifTagGroup::EXIF, 0x9010u16) {
        Some(Field::OffsetTime)
    } else if k == (ExifTagGroup::EXIF, 0x9290u16) {
        Some(Field::SubSecTime)
    } else if k == (ExifTagGroup::EXIF, 0xa433u16) {
        Some(Field::LensMake)
    } else if k == (ExifTagGroup::EXIF, 0xa434u16) {
        Some(Field::LensModel)
    } else if k == (ExifTagGroup::EXIF, 0xa435u16) {
        Some(Field::LensSerialNumber)
    } else if k == (ExifTagGroup::EXIF, 0x9205u16) {
        Some(Field::MaxApertureValue)
    } else if k == (ExifTagGroup::EXIF, 0x8822u16) {
        Some(Field::ExposureProgram)
    } else if k == (ExifTagGroup::EXIF, 0xa402u16) {
        Some(Field::ExposureMode)
    } else if k == (ExifTagGroup::EXIF, 0x829au16) {
        Some(Field::ExposureTime)
    } else if k == (ExifTagGroup::EXIF, 0x9201u16) {
        Some(Field::ShutterSpeedValue)
    } else if k == (ExifTagGroup::EXIF, 0x829du16) {
        Some(Field::FNumber)
    } else if k == (ExifTagGroup::EXIF, 0x9202u16) {
        Some(Field::ApertureValue)
    } else if k == (ExifTagGroup::EXIF, 0x9204u16) {
        Some(Field::ExposureCompensation)
    } else if k == (ExifTagGroup::EXIF, 0x9203u16) {
        Some(Field::BrightnessValue)
    } else if k == (ExifTagGroup::EXIF, 0x9207u16) {
        Some(Field::MeteringMode)
    } else if k == (ExifTagGroup::EXIF, 0x9208u16) {
        Some(Field::LightSource)
    } else if k == (ExifTagGroup::EXIF, 0x9209u16) {
        Some(Field::Flash)
    } else if k == (ExifTagGroup::EXIF, 0x920au16) {
        Some(Field::FocalLength)
    } else if k == (ExifTagGroup::EXIF, 0x9214u16) {
        Some(Field::SubjectArea)
    } else if k == (ExifTagGroup::EXIF, 0xa214u16) {
        Some(Field::SubjectLocation)
    } else if k == (ExifTagGroup::EXIF, 0x8830u16) {
        Some(Field::SensitivityType)
    } else if k == (ExifTagGroup::EXIF, 0x8827u16) {
        Some(Field::ISO)
    } else if k == (ExifTagGroup::EXIF, 0x8833u16) {
        Some(Field::ISOSpeed)
    } else if k == (ExifTagGroup::EXIF, 0x8831u16) {
        Some(Field::StandardOutputSensitivity)
    } else if k == (ExifTagGroup::EXIF, 0x8832u16) {
        Some(Field::RecommendedExposureIndex)
    } else if k == (ExifTagGroup::EXIF, 0xa215u16) {
        Some(Field::ExposureIndex)
    } else if k == (ExifTagGroup::EXIF, 0x8834u16) {
        Some(Field::ISOSpeedLatitudeyyy)
    } else if k == (ExifTagGroup::EXIF, 0x8835u16) {
        Some(Field::ISOSpeedLatitudezzz)
    } else if k == (ExifTagGroup::EXIF, 0x9000u16) {
        Some(Field::ExifVersion)
    } else if k == (ExifTagGroup::EXIF, 0xa000u16) {
        Some(Field::FlashpixVersion)
    } else if k == (ExifTagGroup::GENERIC, 0x8769u16) {
        Some(Field::ExifOffset)
    } else if k == (ExifTagGroup::EXIF, 0x9101u16) {
        Some(Field::ComponentsConfiguration)
    } else if k == (ExifTagGroup::EXIF, 0x9102u16) {
        Some(Field::CompressedBitsPerPixel)
    } else if k == (ExifTagGroup::EXIF, 0xa217u16) {
        Some(Field::SensingMethod)
    } else if k == (ExifTagGroup::EXIF, 0xa300u16) {
        Some(Field::FileSource)
    } else if k == (ExifTagGroup::EXIF, 0xa301u16) {
        Some(Field::SceneType)
    } else if k == (ExifTagGroup::EXIF, 0xa302u16) {
        Some(Field::CFAPattern)
    } else if k == (ExifTagGroup::EXIF, 0x9400u16) {
        Some(Field::AmbientTemperature)
    } else if k == (ExifTagGroup::EXIF, 0x9401u16) {
        Some(Field::Humidity)
    } else if k == (ExifTagGroup::EXIF, 0x9402u16) {
        Some(Field::Pressure)
    } else if k == (ExifTagGroup::EXIF, 0x9403u16) {
        Some(Field::WaterDepth)
    } else if k == (ExifTagGroup::EXIF, 0x9404u16) {
        Some(Field::Acceleration)
    } else if k == (ExifTagGroup::EXIF, 0x9405u16) {
        Some(Field::CameraElevationAngle)
    } else if k == (ExifTagGroup::EXIF, 0x8824u16) {
        Some(Field::SpectralSensitivity)
    } else if k == (ExifTagGroup::EXIF, 0x8828u16) {
        Some(Field::OECF)
    } else if k == (ExifTagGroup::EXIF, 0x9206u16) {
        Some(Field::SubjectDistance)
    } else if k == (ExifTagGroup::EXIF, 0xa40cu16) {
        Some(Field::SubjectDistanceRange)
    } else if k == (ExifTagGroup::EXIF, 0xa20bu16) {
        Some(Field::FlashEnergy)
    } else if k == (ExifTagGroup::EXIF, 0xa20cu16) {
        Some(Field::SpatialFrequencyResponse)
    } else if k == (ExifTagGroup::EXIF, 0xa20eu16) {
        Some(Field::FocalPlaneXResolution)
    } else if k == (ExifTagGroup::EXIF, 0xa20fu16) {
        Some(Field::FocalPlaneYResolution)
    } else if k == (ExifTagGroup::EXIF, 0xa210u16) {
        Some(Field::FocalPlaneResolutionUnit)
    } else if k == (ExifTagGroup::EXIF, 0xa403u16) {
        Some(Field::WhiteBalance)
    } else if k == (ExifTagGroup::EXIF, 0xa404u16) {
        Some(Field::DigitalZoomRatio)
    } else if k == (ExifTagGroup::EXIF, 0xa405u16) {
        Some(Field::FocalLengthIn35mmFormat)
    } else if k == (ExifTagGroup::EXIF, 0xa406u16) {
        Some(Field::SceneCaptureType)
    } else if k == (ExifTagGroup::EXIF, 0xa407u16) {
        Some(Field::GainControl)
    } else if k == (ExifTagGroup::EXIF, 0xa408u16) {
        Some(Field::Contrast)
    } else if k == (ExifTagGroup::EXIF, 0xa409u16) {
        Some(Field::Saturation)
    } else if k == (ExifTagGroup::EXIF, 0xa40au16) {
        Some(Field::Sharpness)
    } else if k == (ExifTagGroup::EXIF, 0xa401u16) {
        Some(Field::CustomRendered)
    } else if k == (ExifTagGroup::EXIF, 0xa40bu16) {
        Some(Field::DeviceSettingDescription)
    } else if k == (ExifTagGroup::EXIF, 0xa500u16) {
        Some(Field::Gamma)
    } else if k == (ExifTagGroup::EXIF, 0xa004u16) {
        Some(Field::RelatedSoundFile)
    } else if k == (ExifTagGroup::EXIF, 0xa420u16) {
        Some(Field::ImageUniqueID)
    } else if k == (ExifTagGroup::EXIF, 0xa460u16) {
        Some(Field::CompositeImage)
    } else if k == (ExifTagGroup::EXIF, 0xa461u16) {
        Some(Field::CompositeImageCount)
    } else if k == (ExifTagGroup::EXIF, 0xa462u16) {
        Some(Field::CompositeImageExposureTimes)
    } else if k == (ExifTagGroup::GPS, 0x0001u16) {
        Some(Field::GPSLatitudeRef)
    } else if k == (ExifTagGroup::GPS, 0x0002u16) {
        Some(Field::GPSLatitude)
    } else if k == (ExifTagGroup::GPS, 0x0003u16) {
        Some(Field::GPSLongitudeRef)
    } else if k == (ExifTagGroup::GPS, 0x0004u16) {
        Some(Field::GPSLongitude)
    } else if k == (ExifTagGroup::GPS, 0x0012u16) {
        Some(Field::GPSMapDatum)
    } else if k == (ExifTagGroup::GPS, 0x0005u16) {
        Some(Field::GPSAltitudeRef)
    } else if k == (ExifTagGroup::GPS, 0x0006u16) {
        Some(Field::GPSAltitude)
    } else if k == (ExifTagGroup::GPS, 0x0008u16) {
        Some(Field::GPSSatellites)
    } else if k == (ExifTagGroup::GPS, 0x0009u16) {
        Some(Field::GPSStatus)
    } else if k == (ExifTagGroup::GPS, 0x000au16) {
        Some(Field::GPSMeasureMode)
    } else if k == (ExifTagGroup::GPS, 0x000bu16) {
        Some(Field::GPSDOP)
    } else if k == (ExifTagGroup::GPS, 0x000cu16) {
        Some(Field::GPSSpeedRef)
    } else if k == (ExifTagGroup::GPS, 0x000du16) {
        Some(Field::GPSSpeed)
    } else if k == (ExifTagGroup::GPS, 0x000eu16) {
        Some(Field::GPSTrackRef)
    } else if k == (ExifTagGroup::GPS, 0x000fu16) {
        Some(Field::GPSTrack)
    } else if k == (ExifTagGroup::GPS, 0x0010u16) {
        Some(Field::GPSImgDirectionRef)
    } else if k == (ExifTagGroup::GPS, 0x0011u16) {
        Some(Field::GPSImgDirection)
    } else if k == (ExifTagGroup::GPS, 0x0013u16) {
        Some(Field::GPSDestLatitudeRef)
    } else if k == (ExifTagGroup::GPS, 0x0014u16) {
        Some(Field::GPSDestLatitude)
    } else if k == (ExifTagGroup::GPS, 0x0015u16) {
        Some(Field::GPSDestLongitudeRef)
    } else if k == (ExifTagGroup::GPS, 0x0016u16) {
        Some(Field::GPSDestLongitude)
    } else if k == (ExifTagGroup::GPS, 0x0017u16) {
        Some(Field::GPSDestBearingRef)
    } else if k == (ExifTagGroup::GPS, 0x0018u16) {
        Some(Field::GPSDestBearing)
    } else if k == (ExifTagGroup::GPS, 0x0019u16) {
        Some(Field::GPSDestDistanceRef)
    } else if k == (ExifTagGroup::GPS, 0x001au16) {
        Some(Field::GPSDestDistance)
    } else if k == (ExifTagGroup::GPS, 0x001bu16) {
        Some(Field::GPSProcessingMethod)
    } else if k == (ExifTagGroup::GPS, 0x001cu16) {
        Some(Field::GPSAreaInformation)
    } else if k == (ExifTagGroup::GPS, 0x001du16) {
        Some(Field::GPSDateStamp)
    } else if k == (ExifTagGroup::GPS, 0x0007u16) {
        Some(Field::GPSTimeStamp)
    } else if k == (ExifTagGroup::GPS, 0x001eu16) {
        Some(Field::GPSDifferential)
    } else if k == (ExifTagGroup::GPS, 0x001fu16) {
        Some(Field::GPSHPositioningError)
    } else if k == (ExifTagGroup::GPS, 0x0000u16) {
        Some(Field::GPSVersionID)
    } else if k == (ExifTagGroup::GENERIC, 0x8825u16) {
        Some(Field::GPSInfo)
    } else if k == (ExifTagGroup::EXIF, 0xa005u16) {
        Some(Field::InteropOffset)
    } else if k == (ExifTagGroup::INTEROP, 0x0001u16) {
        Some(Field::InteroperabilityIndex)
    } else if k == (ExifTagGroup::INTEROP, 0x0002u16) {
        Some(Field::InteroperabilityVersion)
    } else if k == (ExifTagGroup::GENERIC, 0x0201u16) {
        Some(Field::ThumbnailOffset)
    } else if k == (ExifTagGroup::GENERIC, 0x0202u16) {
        Some(Field::ThumbnailLength)
    } else if k == (ExifTagGroup::GENERIC, 0x010eu16) {
        Some(Field::ImageDescription)
    } else if k == (ExifTagGroup::GENERIC, 0x013bu16) {
        Some(Field::Artist)
    } else if k == (ExifTagGroup::GENERIC, 0x8298u16) {
        Some(Field::Copyright)
    } else if k == (ExifTagGroup::EXIF, 0x9286u16) {
        Some(Field::UserComment)
    } else if k == (ExifTagGroup::EXIF, 0x927cu16) {
        Some(Field::MakerNote)
    } else {
        None
    }
}

/// The field a tag identifier owns, if the schema has one.
pub fn field_of_key(group: ExifTagGroup, id: u16) -> (r: Option<Field>)
    ensures
        r == field_of((group, id)),
{
    match group {
        ExifTagGroup::GENERIC => match id {
            0x010f => Some(Field::Make),
            0x0110 => Some(Field::Model),
            0x0131 => Some(Field::Software),
            0x0100 => Some(Field::ImageWidth),
            0x0101 => Some(Field::ImageHeight),
            0x011a => Some(Field::XResolution),
            0x011b => Some(Field::YResolution),
            0x0128 => Some(Field::ResolutionUnit),
            0x0103 => Some(Field::Compression),
            0x0106 => Some(Field::PhotometricInterpretation),
            0x0102 => Some(Field::BitsPerSample),
            0x0115 => Some(Field::SamplesPerPixel),
            0x011c => Some(Field::PlanarConfiguration),
            0x0212 => Some(Field::YCbCrSubSampling),
            0x0213 => Some(Field::YCbCrPositioning),
            0x0211 => Some(Field::YCbCrCoefficients),
            0x012d => Some(Field::TransferFunction),
            0x013e => Some(Field::WhitePoint),
            0x013f => Some(Field::PrimaryChromaticities),
            0x0214 => Some(Field::ReferenceBlackWhite),
            0x0140 => Some(Field::ColorMap),
            0x0111 => Some(Field::StripOffsets),
            0x0117 => Some(Field::StripByteCounts),
            0x0116 => Some(Field::RowsPerStrip),
            0x0112 => Some(Field::Orientation),
            0x0108 => Some(Field::CellWidth),
            0x0109 => Some(Field::CellHeight),
            0x0132 => Some(Field::ModifyDate),
            0x8769 => Some(Field::ExifOffset),
            0x8825 => Some(Field::GPSInfo),
            0x0201 => Some(Field::ThumbnailOffset),
            0x0202 => Some(Field::ThumbnailLength),
            0x010e => Some(Field::ImageDescription),
            0x013b => Some(Field::Artist),
            0x8298 => Some(Field::Copyright),
            _ => None,
        },
        ExifTagGroup::EXIF => match id {
            0xa002 => Some(Field::ExifImageWidth),
            0xa003 => Some(Field::ExifImageHeight),
            0xa001 => Some(Field::ColorSpace),
            0xa431 => Some(Field::SerialNumber),
            0xa430 => Some(Field::OwnerName),
            0xa432 => Some(Field::LensInfo),
            0x9003 => Some(Field::DateTimeOriginal),
            0x9011 => Some(Field::OffsetTimeOriginal),
            0x9291 => Some(Field::SubSecTimeOriginal),
            0x9004 => Some(Field::CreateDate),
            0x9012 => Some(Field::OffsetTimeDigitized),
            0x9292 => Some(Field::SubSecTimeDigitized),
            0x9010 => Some(Field::OffsetTime),
            0x9290 => Some(Field::SubSecTime),
            0xa433 => Some(Field::LensMake),
            0xa434 => Some(Field::LensModel),
            0xa435 => Some(Field::LensSerialNumber),
            0x9205 => Some(Field::MaxApertureValue),
            0x8822 => Some(Field::ExposureProgram),
            0xa402 => Some(Field::ExposureMode),
            0x829a => Some(Field::ExposureTime),
            0x9201 => Some(Field::ShutterSpeedValue),
            0x829d => Some(Field::FNumber),
            0x9202 => Some(Field::ApertureValue),
            0x9204 => Some(Field::ExposureCompensation),
            0x9203 => Some(Field::BrightnessValue),
            0x9207 => Some(Field::MeteringMode),
            0x9208 => Some(Field::LightSource),
            0x9209 => Some(Field::Flash),
            0x920a => Some(Field::FocalLength),
            0x9214 => Some(Field::SubjectArea),
            0xa214 => Some(Field::SubjectLocation),
            0x8830 => Some(Field::SensitivityType),
            0x8827 => Some(Field::ISO),
            0x8833 => Some(Field::ISOSpeed),
            0x8831 => Some(Field::StandardOutputSensitivity),
            0x8832 => Some(Field::RecommendedExposureIndex),
            0xa215 => Some(Field::ExposureIndex),
            0x8834 => Some(Field::ISOSpeedLatitudeyyy),
            0x8835 => Some(Field::ISOSpeedLatitudezzz),
            0x9000 => Some(Field::ExifVersion),
            0xa000 => Some(Field::FlashpixVersion),
            0x9101 => Some(Field::ComponentsConfiguration),
            0x9102 => Some(Field::CompressedBitsPerPixel),
            0xa217 => Some(Field::SensingMethod),
            0xa300 => Some(Field::FileSource),
            0xa301 => Some(Field::SceneType),
            0xa302 => Some(Field::CFAPattern),
            0x9400 => Some(Field::AmbientTemperature),
            0x9401 => Some(Field::Humidity),
            0x9402 => Some(Field::Pressure),
            0x9403 => Some(Field::WaterDepth),
            0x9404 => Some(Field::Acceleration),
            0x9405 => Some(Field::CameraElevationAngle),
            0x8824 => Some(Field::SpectralSensitivity),
            0x8828 => Some(Field::OECF),
            0x9206 => Some(Field::SubjectDistance),
            0xa40c => Some(Field::SubjectDistanceRange),
            0xa20b => Some(Field::FlashEnergy),
            0xa20c => Some(Field::SpatialFrequencyResponse),
            0xa20e => Some(Field::FocalPlaneXResolution),
            0xa20f => Some(Field::FocalPlaneYResolution),
            0xa210 => Some(Field::FocalPlaneResolutionUnit),
            0xa403 => Some(Field::WhiteBalance),
            0xa404 => Some(Field::DigitalZoomRatio),
            0xa405 => Some(Field::FocalLengthIn35mmFormat),
            0xa406 => Some(Field::SceneCaptureType),
            0xa407 => Some(Field::GainControl),
            0xa408 => Some(Field::Contrast),
            0xa409 => Some(Field::Saturation),
            0xa40a => Some(Field::Sharpness),
            0xa401 => Some(Field::CustomRendered),
            0xa40b => Some(Field::DeviceSettingDescription),
            0xa500 => Some(Field::Gamma),
            0xa004 => Some(Field::RelatedSoundFile),
            0xa420 => Some(Field::ImageUniqueID),
            0xa460 => Some(Field::CompositeImage),
            0xa461 => Some(Field::CompositeImageCount),
            0xa462 => Some(Field::CompositeImageExposureTimes),
            0xa005 => Some(Field::InteropOffset),
            0x9286 => Some(Field::UserComment),
            0x927c => Some(Field::MakerNote),
            _ => None,
        },
        ExifTagGroup::INTEROP => match id {
            0x0001 => Some(Field::InteroperabilityIndex),
            0x0002 => Some(Field::InteroperabilityVersion),
            _ => None,
        },
        ExifTagGroup::GPS => match id {
            0x0001 => Some(Field::GPSLatitudeRef),
            0x0002 => Some(Field::GPSLatitude),
            0x0003 => Some(Field::GPSLongitudeRef),
            0x0004 => Some(Field::GPSLongitude),
            0x0012 => Some(Field::GPSMapDatum),
            0x0005 => Some(Field::GPSAltitudeRef),
            0x0006 => Some(Field::GPSAltitude),
            0x0008 => Some(Field::GPSSatellites),
            0x0009 => Some(Field::GPSStatus),
            0x000a => Some(Field::GPSMeasureMode),
            0x000b => Some(Field::GPSDOP),
            0x000c => Some(Field::GPSSpeedRef),
            0x000d => Some(Field::GPSSpeed),
            0x000e => Some(Field::GPSTrackRef),
            0x000f => Some(Field::GPSTrack),
            0x0010 => Some(Field::GPSImgDirectionRef),
            0x0011 => Some(Field::GPSImgDirection),
            0x0013 => Some(Field::GPSDestLatitudeRef),
            0x0014 => Some(Field::GPSDestLatitude),
            0x0015 => Some(Field::GPSDestLongitudeRef),
            0x0016 => Some(Field::GPSDestLongitude),
            0x0017 => Some(Field::GPSDestBearingRef),
            0x0018 => Some(Field::GPSDestBearing),
            0x0019 => Some(Field::GPSDestDistanceRef),
            0x001a => Some(Field::GPSDestDistance),
            0x001b => Some(Field::GPSProcessingMethod),
            0x001c => Some(Field::GPSAreaInformation),
            0x001d => Some(Field::GPSDateStamp),
            0x0007 => Some(Field::GPSTimeStamp),
            0x001e => Some(Field::GPSDifferential),
            0x001f => Some(Field::GPSHPositioningError),
            0x0000 => Some(Field::GPSVersionID),
            _ => None,
        },
    }
}

/// The text stored for an optional string field is `t`.
pub open spec fn opt_text(o: Option<String>, t: Seq<char>) -> bool {
    o matches Some(x) && x@ == t
}

/// A companion field gets `default` only when it has no value yet.
pub open spec fn seeded<T>(before: Option<T>, after: Option<T>, default: T) -> bool {
    &&& before is None ==> after == Some(default)
    &&& before is Some ==> after == before
}

/// The first `n` values, the first one repeated where fewer are given.
pub open spec fn padded<T>(s: Seq<T>, n: nat) -> Seq<T> {
    Seq::new(n, |i: int| if i < s.len() { s[i] } else { s[0] })
}

/// The first `n` values, the first one repeated where fewer are given.
fn pad_first<T: Copy>(v: &Vec<T>, n: usize) -> (r: Vec<T>)
    requires
        v@.len() >= 1,
    ensures
        r@ == padded(v@, n as nat),
{
    let mut r: Vec<T> = Vec::new();
    let mut i: usize = 0;
    while i < n
        invariant
            v@.len() >= 1,
            0 <= i <= n,
            r@.len() == i,
            forall|j: int| 0 <= j < i ==> #[trigger] r@[j] == (if j < v@.len() { v@[j] } else { v@[0] }),
        decreases n - i,
    {
        if i < v.len() {
            r.push(v[i]);
        } else {
            r.push(v[0]);
        }
        i = i + 1;
    }
    assert(r@ =~= padded(v@, n as nat));
    r
}

/// The first `n` rationals as decimals, the first one repeated where fewer are given.
fn pad_rationals(v: &Vec<uR64>, n: usize) -> (r: Vec<F64>)
    requires
        v@.len() >= 1,
    ensures
        r@ == padded(v@.map_values(|u: uR64| F64::from_ur64_spec(u)), n as nat),
{
    let w = crate::utils::vec_ur64_to_f64(v.as_slice());
    assert(w@ =~= v@.map_values(|u: uR64| F64::from_ur64_spec(u)));
    pad_first(&w, n)
}

/// Decimal texts separated by a comma and a space.
pub open spec fn join_f64(s: Seq<F64>) -> Seq<char>
    decreases s.len(),
{
    if s.len() == 0 {
        seq![]
    } else if s.len() == 1 {
        s[0].text()
    } else {
        join_f64(s.drop_last()) + seq![',', ' '] + s.last().text()
    }
}

fn f64s_text(v: &Vec<F64>) -> (r: String)
    ensures
        r@ == join_f64(v@),
{
    let mut s = String::new();
    let mut i: usize = 0;
    assert(v@.take(0) =~= Seq::<F64>::empty());
    while i < v.len()
        invariant
            0 <= i <= v@.len(),
            s@ == join_f64(v@.take(i as int)),
        decreases v@.len() - i,
    {
        proof {
            reveal_strlit(", ");
            assert(v@.take(i as int + 1).drop_last() =~= v@.take(i as int));
        }
        if i > 0 {
            s.append(", ");
        }
        let t = v[i].show_value();
        s.append(t.as_str());
        proof {
            if i == 0 {
                assert(v@.take(1) =~= seq![v@[0]]);
            }
            assert(s@ =~= join_f64(v@.take(i as int + 1)));
        }
        i = i + 1;
    }
    assert(v@.take(v@.len() as int) =~= v@);
    s
}

/// The structured record of one image's metadata, together with the raw tag table it mirrors.
#[derive(Clone, Debug, PartialEq)]
pub struct ExifEditData {
    pub metadata: Metadata,
    pub basic_image_info: BasicImageInfo,
    pub exif_capture_info: ExifCaptureInfo,
    pub gps_info: GpsInfo,
    pub interop_info: InteropInfo,
    pub thumbnail_info: ThumbnailInfo,
    pub user_info: UserInfo,
    pub uneditable: Uneditable,
}

impl ExifEditData {
    pub open spec fn wf(&self) -> bool {
        self.uneditable.wf()
    }

    /// Every field outside `fs` is the same in `a` and `b`.
    pub open spec fn unchanged_except(a: ExifEditData, b: ExifEditData, fs: Set<Field>) -> bool {
        &&& fs.contains(Field::Make) || a.basic_image_info.make == b.basic_image_info.make
        &&& fs.contains(Field::Model) || a.basic_image_info.model == b.basic_image_info.model
        &&& fs.contains(Field::Software) || a.basic_image_info.software == b.basic_image_info.software
        &&& fs.contains(Field::ImageWidth) || a.basic_image_info.image_width == b.basic_image_info.image_width
        &&& fs.contains(Field::ImageHeight) || a.basic_image_info.image_height == b.basic_image_info.image_height
        &&& fs.contains(Field::ExifImageWidth) || a.basic_image_info.exif_image_width == b.basic_image_info.exif_image_width
        &&& fs.contains(Field::ExifImageHeight) || a.basic_image_info.exif_image_height == b.basic_image_info.exif_image_height
        &&& fs.contains(Field::XResolution) || a.basic_image_info.x_resolution == b.basic_image_info.x_resolution
        &&& fs.contains(Field::YResolution) || a.basic_image_info.y_resolution == b.basic_image_info.y_resolution
        &&& fs.contains(Field::ResolutionUnit) || a.basic_image_info.resolution_unit == b.basic_image_info.resolution_unit
        &&& fs.contains(Field::Compression) || a.basic_image_info.compression == b.basic_image_info.compression
        &&& fs.contains(Field::PhotometricInterpretation) || a.basic_image_info.photometric_interpretation == b.basic_image_info.photometric_interpretation
        &&& fs.contains(Field::ColorSpace) || a.basic_image_info.color_space == b.basic_image_info.color_space
        &&& fs.contains(Field::BitsPerSample) || a.basic_image_info.bits_per_sample == b.basic_image_info.bits_per_sample
        &&& fs.contains(Field::SamplesPerPixel) || a.basic_image_info.samples_per_pixel == b.basic_image_info.samples_per_pixel
        &&& fs.contains(Field::PlanarConfiguration) || a.basic_image_info.planar_configuration == b.basic_image_info.planar_configuration
        &&& fs.contains(Field::YCbCrSubSampling) || a.basic_image_info.ycbcr_sub_sampling == b.basic_image_info.ycbcr_sub_sampling
        &&& fs.contains(Field::YCbCrPositioning) || a.basic_image_info.ycbcr_positioning == b.basic_image_info.ycbcr_positioning
        &&& fs.contains(Field::YCbCrCoefficients) || a.basic_image_info.ycbcr_coefficients == b.basic_image_info.ycbcr_coefficients
        &&& fs.contains(Field::TransferFunction) || a.basic_image_info.transfer_function == b.basic_image_info.transfer_function
        &&& fs.contains(Field::WhitePoint) || a.basic_image_info.white_point == b.basic_image_info.white_point
        &&& fs.contains(Field::PrimaryChromaticities) || a.basic_image_info.primary_chromaticities == b.basic_image_info.primary_chromaticities
        &&& fs.contains(Field::ReferenceBlackWhite) || a.basic_image_info.reference_black_white == b.basic_image_info.reference_black_white
        &&& fs.contains(Field::ColorMap) || a.basic_image_info.color_map == b.basic_image_info.color_map
        &&& fs.contains(Field::StripOffsets) || a.basic_image_info.strip_offsets == b.basic_image_info.strip_offsets
        &&& fs.contains(Field::StripByteCounts) || a.basic_image_info.strip_byte_counts == b.basic_image_info.strip_byte_counts
        &&& fs.contains(Field::RowsPerStrip) || a.basic_image_info.rows_per_strip == b.basic_image_info.rows_per_strip
        &&& fs.contains(Field::Orientation) || a.basic_image_info.orientation == b.basic_image_info.orientation
        &&& fs.contains(Field::CellWidth) || a.basic_image_info.cell_width == b.basic_image_info.cell_width
        &&& fs.contains(Field::CellHeight) || a.basic_image_info.cell_height == b.basic_image_info.cell_height
        &&& fs.contains(Field::SerialNumber) || a.basic_image_info.serial_number == b.basic_image_info.serial_number
        &&& fs.contains(Field::OwnerName) || a.basic_image_info.owner_name == b.basic_image_info.owner_name
        &&& fs.contains(Field::LensInfo) || a.basic_image_info.lens_info == b.basic_image_info.lens_info
        &&& fs.contains(Field::DateTimeOriginal) || a.exif_capture_info.date_time_original == b.exif_capture_info.date_time_original
        &&& fs.contains(Field::OffsetTimeOriginal) || a.exif_capture_info.offset_time_original == b.exif_capture_info.offset_time_original
        &&& fs.contains(Field::SubSecTimeOriginal) || a.exif_capture_info.sub_sec_time_original == b.exif_capture_info.sub_sec_time_original
        &&& fs.contains(Field::CreateDate) || a.exif_capture_info.create_date == b.exif_capture_info.create_date
        &&& fs.contains(Field::OffsetTimeDigitized) || a.exif_capture_info.offset_time_digitized == b.exif_capture_info.offset_time_digitized
        &&& fs.contains(Field::SubSecTimeDigitized) || a.exif_capture_info.sub_sec_time_digitized == b.exif_capture_info.sub_sec_time_digitized
        &&& fs.contains(Field::ModifyDate) || a.exif_capture_info.modify_date == b.exif_capture_info.modify_date
        &&& fs.contains(Field::OffsetTime) || a.exif_capture_info.offset_time == b.exif_capture_info.offset_time
        &&& fs.contains(Field::SubSecTime) || a.exif_capture_info.sub_sec_time == b.exif_capture_info.sub_sec_time
        &&& fs.contains(Field::LensMake) || a.exif_capture_info.lens_make == b.exif_capture_info.lens_make
        &&& fs.contains(Field::LensModel) || a.exif_capture_info.lens_model == b.exif_capture_info.lens_model
        &&& fs.contains(Field::LensSerialNumber) || a.exif_capture_info.lens_serial_number == b.exif_capture_info.lens_serial_number
        &&& fs.contains(Field::MaxApertureValue) || a.exif_capture_info.max_aperture_value == b.exif_capture_info.max_aperture_value
        &&& fs.contains(Field::ExposureProgram) || a.exif_capture_info.exposure_program == b.exif_capture_info.exposure_program
        &&& fs.contains(Field::ExposureMode) || a.exif_capture_info.exposure_mode == b.exif_capture_info.exposure_mode
        &&& fs.contains(Field::ExposureTime) || a.exif_capture_info.exposure_time == b.exif_capture_info.exposure_time
        &&& fs.contains(Field::ShutterSpeedValue) || a.exif_capture_info.shutter_speed_value == b.exif_capture_info.shutter_speed_value
        &&& fs.contains(Field::FNumber) || a.exif_capture_info.f_number == b.exif_capture_info.f_number
        &&& fs.contains(Field::ApertureValue) || a.exif_capture_info.aperture_value == b.exif_capture_info.aperture_value
        &&& fs.contains(Field::ExposureCompensation) || a.exif_capture_info.exposure_compensation == b.exif_capture_info.exposure_compensation
        &&& fs.contains(Field::BrightnessValue) || a.exif_capture_info.brightness_value == b.exif_capture_info.brightness_value
        &&& fs.contains(Field::MeteringMode) || a.exif_capture_info.metering_mode == b.exif_capture_info.metering_mode
        &&& fs.contains(Field::LightSource) || a.exif_capture_info.light_source == b.exif_capture_info.light_source
        &&& fs.contains(Field::Flash) || a.exif_capture_info.flash == b.exif_capture_info.flash
        &&& fs.contains(Field::FocalLength) || a.exif_capture_info.focal_length == b.exif_capture_info.focal_length
        &&& fs.contains(Field::SubjectArea) || a.exif_capture_info.subject_area == b.exif_capture_info.subject_area
        &&& fs.contains(Field::SubjectLocation) || a.exif_capture_info.subject_location == b.exif_capture_info.subject_location
        &&& fs.contains(Field::SensitivityType) || a.exif_capture_info.sensitivity_type == b.exif_capture_info.sensitivity_type
        &&& fs.contains(Field::ISO) || a.exif_capture_info.iso == b.exif_capture_info.iso
        &&& fs.contains(Field::ISOSpeed) || a.exif_capture_info.iso_speed == b.exif_capture_info.iso_speed
        &&& fs.contains(Field::StandardOutputSensitivity) || a.exif_capture_info.standard_output_sensitivity == b.exif_capture_info.standard_output_sensitivity
        &&& fs.contains(Field::RecommendedExposureIndex) || a.exif_capture_info.recommended_exposure_index == b.exif_capture_info.recommended_exposure_index
        &&& fs.contains(Field::ExposureIndex) || a.exif_capture_info.exposure_index == b.exif_capture_info.exposure_index
        &&& fs.contains(Field::ISOSpeedLatitudeyyy) || a.exif_capture_info.iso_speed_latitude_yyy == b.exif_capture_info.iso_speed_latitude_yyy
        &&& fs.contains(Field::ISOSpeedLatitudezzz) || a.exif_capture_info.iso_speed_latitude_zzz == b.exif_capture_info.iso_speed_latitude_zzz
        &&& fs.contains(Field::ExifVersion) || a.exif_capture_info.exif_version == b.exif_capture_info.exif_version
        &&& fs.contains(Field::FlashpixVersion) || a.exif_capture_info.flashpix_version == b.exif_capture_info.flashpix_version
        &&& fs.contains(Field::ExifOffset) || a.exif_capture_info.exif_offset == b.exif_capture_info.exif_offset
        &&& fs.contains(Field::ComponentsConfiguration) || a.exif_capture_info.components_configuration == b.exif_capture_info.components_configuration
        &&& fs.contains(Field::CompressedBitsPerPixel) || a.exif_capture_info.compressed_bits_per_pixel == b.exif_capture_info.compressed_bits_per_pixel
        &&& fs.contains(Field::SensingMethod) || a.exif_capture_info.sensing_method == b.exif_capture_info.sensing_method
        &&& fs.contains(Field::FileSource) || a.exif_capture_info.file_source == b.exif_capture_info.file_source
        &&& fs.contains(Field::SceneType) || a.exif_capture_info.scene_type == b.exif_capture_info.scene_type
        &&& fs.contains(Field::CFAPattern) || a.exif_capture_info.cfa_pattern == b.exif_capture_info.cfa_pattern
        &&& fs.contains(Field::AmbientTemperature) || a.exif_capture_info.ambient_temperature == b.exif_capture_info.ambient_temperature
        &&& fs.contains(Field::Humidity) || a.exif_capture_info.humidity == b.exif_capture_info.humidity
        &&& fs.contains(Field::Pressure) || a.exif_capture_info.pressure == b.exif_capture_info.pressure
        &&& fs.contains(Field::WaterDepth) || a.exif_capture_info.water_depth == b.exif_capture_info.water_depth
        &&& fs.contains(Field::Acceleration) || a.exif_capture_info.acceleration == b.exif_capture_info.acceleration
        &&& fs.contains(Field::CameraElevationAngle) || a.exif_capture_info.camera_elevation_angle == b.exif_capture_info.camera_elevation_angle
        &&& fs.contains(Field::SpectralSensitivity) || a.exif_capture_info.spectral_sensitivity == b.exif_capture_info.spectral_sensitivity
        &&& fs.contains(Field::OECF) || a.exif_capture_info.oecf == b.exif_capture_info.oecf
        &&& fs.contains(Field::SubjectDistance) || a.exif_capture_info.subject_distance == b.exif_capture_info.subject_distance
        &&& fs.contains(Field::SubjectDistanceRange) || a.exif_capture_info.subject_distance_range == b.exif_capture_info.subject_distance_range
        &&& fs.contains(Field::FlashEnergy) || a.exif_capture_info.flash_energy == b.exif_capture_info.flash_energy
        &&& fs.contains(Field::SpatialFrequencyResponse) || a.exif_capture_info.spatial_frequency_response == b.exif_capture_info.spatial_frequency_response
        &&& fs.contains(Field::FocalPlaneXResolution) || a.exif_capture_info.focal_plane_x_resolution == b.exif_capture_info.focal_plane_x_resolution
        &&& fs.contains(Field::FocalPlaneYResolution) || a.exif_capture_info.focal_plane_y_resolution == b.exif_capture_info.focal_plane_y_resolution
        &&& fs.contains(Field::FocalPlaneResolutionUnit) || a.exif_capture_info.focal_plane_resolution_unit == b.exif_capture_info.focal_plane_resolution_unit
        &&& fs.contains(Field::WhiteBalance) || a.exif_capture_info.white_balance == b.exif_capture_info.white_balance
        &&& fs.contains(Field::DigitalZoomRatio) || a.exif_capture_info.digital_zoom_ratio == b.exif_capture_info.digital_zoom_ratio
        &&& fs.contains(Field::FocalLengthIn35mmFormat) || a.exif_capture_info.focal_length_in_35mm_format == b.exif_capture_info.focal_length_in_35mm_format
        &&& fs.contains(Field::SceneCaptureType) || a.exif_capture_info.scene_capture_type == b.exif_capture_info.scene_capture_type
        &&& fs.contains(Field::GainControl) || a.exif_capture_info.gain_control == b.exif_capture_info.gain_control
        &&& fs.contains(Field::Contrast) || a.exif_capture_info.contrast == b.exif_capture_info.contrast
        &&& fs.contains(Field::Saturation) || a.exif_capture_info.saturation == b.exif_capture_info.saturation
        &&& fs.contains(Field::Sharpness) || a.exif_capture_info.sharpness == b.exif_capture_info.sharpness
        &&& fs.contains(Field::CustomRendered) || a.exif_capture_info.custom_rendered == b.exif_capture_info.custom_rendered
        &&& fs.contains(Field::DeviceSettingDescription) || a.exif_capture_info.device_setting_description == b.exif_capture_info.device_setting_description
        &&& fs.contains(Field::Gamma) || a.exif_capture_info.gamma == b.exif_capture_info.gamma
        &&& fs.contains(Field::RelatedSoundFile) || a.exif_capture_info.related_sound_file == b.exif_capture_info.related_sound_file
        &&& fs.contains(Field::ImageUniqueID) || a.exif_capture_info.image_unique_id == b.exif_capture_info.image_unique_id
        &&& fs.contains(Field::CompositeImage) || a.exif_capture_info.composite_image == b.exif_capture_info.composite_image
        &&& fs.contains(Field::CompositeImageCount) || a.exif_capture_info.composite_image_count == b.exif_capture_info.composite_image_count
        &&& fs.contains(Field::CompositeImageExposureTimes) || a.exif_capture_info.composite_image_exposure_times == b.exif_capture_info.composite_image_exposure_times
        &&& fs.contains(Field::GPSLatitudeRef) || a.gps_info.gps_latitude_ref == b.gps_info.gps_latitude_ref
        &&& fs.contains(Field::GPSLatitude) || a.gps_info.gps_latitude == b.gps_info.gps_latitude
        &&& fs.contains(Field::GPSLongitudeRef) || a.gps_info.gps_longitude_ref == b.gps_info.gps_longitude_ref
        &&& fs.contains(Field::GPSLongitude) || a.gps_info.gps_longitude == b.gps_info.gps_longitude
        &&& fs.contains(Field::GPSMapDatum) || a.gps_info.gps_map_datum == b.gps_info.gps_map_datum
        &&& fs.contains(Field::GPSAltitudeRef) || a.gps_info.gps_altitude_ref == b.gps_info.gps_altitude_ref
        &&& fs.contains(Field::GPSAltitude) || a.gps_info.gps_altitude == b.gps_info.gps_altitude
        &&& fs.contains(Field::GPSSatellites) || a.gps_info.gps_satellites == b.gps_info.gps_satellites
        &&& fs.contains(Field::GPSStatus) || a.gps_info.gps_status == b.gps_info.gps_status
        &&& fs.contains(Field::GPSMeasureMode) || a.gps_info.gps_measure_mode == b.gps_info.gps_measure_mode
        &&& fs.contains(Field::GPSDOP) || a.gps_info.gps_dop == b.gps_info.gps_dop
        &&& fs.contains(Field::GPSSpeedRef) || a.gps_info.gps_speed_ref == b.gps_info.gps_speed_ref
        &&& fs.contains(Field::GPSSpeed) || a.gps_info.gps_speed == b.gps_info.gps_speed
        &&& fs.contains(Field::GPSTrackRef) || a.gps_info.gps_track_ref == b.gps_info.gps_track_ref
        &&& fs.contains(Field::GPSTrack) || a.gps_info.gps_track == b.gps_info.gps_track
        &&& fs.contains(Field::GPSImgDirectionRef) || a.gps_info.gps_img_direction_ref == b.gps_info.gps_img_direction_ref
        &&& fs.contains(Field::GPSImgDirection) || a.gps_info.gps_img_direction == b.gps_info.gps_img_direction
        &&& fs.contains(Field::GPSDestLatitudeRef) || a.gps_info.gps_dest_latitude_ref == b.gps_info.gps_dest_latitude_ref
        &&& fs.contains(Field::GPSDestLatitude) || a.gps_info.gps_dest_latitude == b.gps_info.gps_dest_latitude
        &&& fs.contains(Field::GPSDestLongitudeRef) || a.gps_info.gps_dest_longitude_ref == b.gps_info.gps_dest_longitude_ref
        &&& fs.contains(Field::GPSDestLongitude) || a.gps_info.gps_dest_longitude == b.gps_info.gps_dest_longitude
        &&& fs.contains(Field::GPSDestBearingRef) || a.gps_info.gps_dest_bearing_ref == b.gps_info.gps_dest_bearing_ref
        &&& fs.contains(Field::GPSDestBearing) || a.gps_info.gps_dest_bearing == b.gps_info.gps_dest_bearing
        &&& fs.contains(Field::GPSDestDistanceRef) || a.gps_info.gps_dest_distance_ref == b.gps_info.gps_dest_distance_ref
        &&& fs.contains(Field::GPSDestDistance) || a.gps_info.gps_dest_distance == b.gps_info.gps_dest_distance
        &&& fs.contains(Field::GPSProcessingMethod) || a.gps_info.gps_processing_method == b.gps_info.gps_processing_method
        &&& fs.contains(Field::GPSAreaInformation) || a.gps_info.gps_area_information == b.gps_info.gps_area_information
        &&& fs.contains(Field::GPSDateStamp) || a.gps_info.gps_date_stamp == b.gps_info.gps_date_stamp
        &&& fs.contains(Field::GPSTimeStamp) || a.gps_info.gps_time_stamp == b.gps_info.gps_time_stamp
        &&& fs.contains(Field::GPSDifferential) || a.gps_info.gps_differential == b.gps_info.gps_differential
        &&& fs.contains(Field::GPSHPositioningError) || a.gps_info.gps_h_positioning_error == b.gps_info.gps_h_positioning_error
        &&& fs.contains(Field::GPSVersionID) || a.gps_info.gps_version_id == b.gps_info.gps_version_id
        &&& fs.contains(Field::GPSInfo) || a.gps_info.gps_info == b.gps_info.gps_info
        &&& fs.contains(Field::InteropOffset) || a.interop_info.interop_offset == b.interop_info.interop_offset
        &&& fs.contains(Field::InteroperabilityIndex) || a.interop_info.interoperability_index == b.interop_info.interoperability_index
        &&& fs.contains(Field::InteroperabilityVersion) || a.interop_info.interoperability_version == b.interop_info.interoperability_version
        &&& fs.contains(Field::ThumbnailOffset) || a.thumbnail_info.thumbnail_offset == b.thumbnail_info.thumbnail_offset
        &&& fs.contains(Field::ThumbnailLength) || a.thumbnail_info.thumbnail_length == b.thumbnail_info.thumbnail_length
        &&& fs.contains(Field::ImageDescription) || a.user_info.image_description == b.user_info.image_description
        &&& fs.contains(Field::Artist) || a.user_info.artist == b.user_info.artist
        &&& fs.contains(Field::Copyright) || a.user_info.copyright == b.user_info.copyright
        &&& fs.contains(Field::UserComment) || a.user_info.user_comment == b.user_info.user_comment
        &&& fs.contains(Field::MakerNote) || a.uneditable.maker_note == b.uneditable.maker_note
    }

    /// Whether a field holds no value.
    pub open spec fn unset(d: ExifEditData, f: Field) -> bool {
        match f {
            Field::Make => d.basic_image_info.make is None,
            Field::Model => d.basic_image_info.model is None,
            Field::Software => d.basic_image_info.software is None,
            Field::ImageWidth => d.basic_image_info.image_width is None,
            Field::ImageHeight => d.basic_image_info.image_height is None,
            Field::ExifImageWidth => d.basic_image_info.exif_image_width is None,
            Field::ExifImageHeight => d.basic_image_info.exif_image_height is None,
            Field::XResolution => d.basic_image_info.x_resolution is None,
            Field::YResolution => d.basic_image_info.y_resolution is None,
            Field::ResolutionUnit => d.basic_image_info.resolution_unit is None,
            Field::Compression => d.basic_image_info.compression is None,
            Field::PhotometricInterpretation => d.basic_image_info.photometric_interpretation is None,
            Field::ColorSpace => d.basic_image_info.color_space is None,
            Field::BitsPerSample => d.basic_image_info.bits_per_sample is None,
            Field::SamplesPerPixel => d.basic_image_info.samples_per_pixel is None,
            Field::PlanarConfiguration => d.basic_image_info.planar_configuration is None,
            Field::YCbCrSubSampling => d.basic_image_info.ycbcr_sub_sampling is None,
            Field::YCbCrPositioning => d.basic_image_info.ycbcr_positioning is None,
            Field::YCbCrCoefficients => d.basic_image_info.ycbcr_coefficients is None,
            Field::TransferFunction => d.basic_image_info.transfer_function is None,
            Field::WhitePoint => d.basic_image_info.white_point is None,
            Field::PrimaryChromaticities => d.basic_image_info.primary_chromaticities is None,
            Field::ReferenceBlackWhite => d.basic_image_info.reference_black_white is None,
            Field::ColorMap => d.basic_image_info.color_map is None,
            Field::StripOffsets => d.basic_image_info.strip_offsets is None,
            Field::StripByteCounts => d.basic_image_info.strip_byte_counts is None,
            Field::RowsPerStrip => d.basic_image_info.rows_per_strip is None,
            Field::Orientation => d.basic_image_info.orientation is None,
            Field::CellWidth => d.basic_image_info.cell_width is None,
            Field::CellHeight => d.basic_image_info.cell_height is None,
            Field::SerialNumber => d.basic_image_info.serial_number is None,
            Field::OwnerName => d.basic_image_info.owner_name is None,
            Field::LensInfo => d.basic_image_info.lens_info is None,
            Field::DateTimeOriginal => d.exif_capture_info.date_time_original is None,
            Field::OffsetTimeOriginal => d.exif_capture_info.offset_time_original is None,
            Field::SubSecTimeOriginal => d.exif_capture_info.sub_sec_time_original is None,
            Field::CreateDate => d.exif_capture_info.create_date is None,
            Field::OffsetTimeDigitized => d.exif_capture_info.offset_time_digitized is None,
            Field::SubSecTimeDigitized => d.exif_capture_info.sub_sec_time_digitized is None,
            Field::ModifyDate => d.exif_capture_info.modify_date is None,
            Field::OffsetTime => d.exif_capture_info.offset_time is None,
            Field::SubSecTime => d.exif_capture_info.sub_sec_time is None,
            Field::LensMake => d.exif_capture_info.lens_make is None,
            Field::LensModel => d.exif_capture_info.lens_model is None,
            Field::LensSerialNumber => d.exif_capture_info.lens_serial_number is None,
            Field::MaxApertureValue => d.exif_capture_info.max_aperture_value is None,
            Field::ExposureProgram => d.exif_capture_info.exposure_program is None,
            Field::ExposureMode => d.exif_capture_info.exposure_mode is None,
            Field::ExposureTime => d.exif_capture_info.exposure_time is None,
            Field::ShutterSpeedValue => d.exif_capture_info.shutter_speed_value is None,
            Field::FNumber => d.exif_capture_info.f_number is None,
            Field::ApertureValue => d.exif_capture_info.aperture_value is None,
            Field::ExposureCompensation => d.exif_capture_info.exposure_compensation is None,
            Field::BrightnessValue => d.exif_capture_info.brightness_value is None,
            Field::MeteringMode => d.exif_capture_info.metering_mode is None,
            Field::LightSource => d.exif_capture_info.light_source is None,
            Field::Flash => d.exif_capture_info.flash is None,
            Field::FocalLength => d.exif_capture_info.focal_length is None,
            Field::SubjectArea => d.exif_capture_info.subject_area is None,
            Field::SubjectLocation => d.exif_capture_info.subject_location is None,
            Field::SensitivityType => d.exif_capture_info.sensitivity_type is None,
            Field::ISO => d.exif_capture_info.iso is None,
            Field::ISOSpeed => d.exif_capture_info.iso_speed is None,
            Field::StandardOutputSensitivity => d.exif_capture_info.standard_output_sensitivity is None,
            Field::RecommendedExposureIndex => d.exif_capture_info.recommended_exposure_index is None,
            Field::ExposureIndex => d.exif_capture_info.exposure_index is None,
            Field::ISOSpeedLatitudeyyy => d.exif_capture_info.iso_speed_latitude_yyy is None,
            Field::ISOSpeedLatitudezzz => d.exif_capture_info.iso_speed_latitude_zzz is None,
            Field::ExifVersion => d.exif_capture_info.exif_version is None,
            Field::FlashpixVersion => d.exif_capture_info.flashpix_version is None,
            Field::ExifOffset => d.exif_capture_info.exif_offset is None,
            Field::ComponentsConfiguration => d.exif_capture_info.components_configuration is None,
            Field::CompressedBitsPerPixel => d.exif_capture_info.compressed_bits_per_pixel is None,
            Field::SensingMethod => d.exif_capture_info.sensing_method is None,
            Field::FileSource => d.exif_capture_info.file_source is None,
            Field::SceneType => d.exif_capture_info.scene_type is None,
            Field::CFAPattern => d.exif_capture_info.cfa_pattern is None,
            Field::AmbientTemperature => d.exif_capture_info.ambient_temperature is None,
            Field::Humidity => d.exif_capture_info.humidity is None,
            Field::Pressure => d.exif_capture_info.pressure is None,
            Field::WaterDepth => d.exif_capture_info.water_depth is None,
            Field::Acceleration => d.exif_capture_info.acceleration is None,
            Field::CameraElevationAngle => d.exif_capture_info.camera_elevation_angle is None,
            Field::SpectralSensitivity => d.exif_capture_info.spectral_sensitivity is None,
            Field::OECF => d.exif_capture_info.oecf is None,
            Field::SubjectDistance => d.exif_capture_info.subject_distance is None,
            Field::SubjectDistanceRange => d.exif_capture_info.subject_distance_range is None,
            Field::FlashEnergy => d.exif_capture_info.flash_energy is None,
            Field::SpatialFrequencyResponse => d.exif_capture_info.spatial_frequency_response is None,
            Field::FocalPlaneXResolution => d.exif_capture_info.focal_plane_x_resolution is None,
            Field::FocalPlaneYResolution => d.exif_capture_info.focal_plane_y_resolution is None,
            Field::FocalPlaneResolutionUnit => d.exif_capture_info.focal_plane_resolution_unit is None,
            Field::WhiteBalance => d.exif_capture_info.white_balance is None,
            Field::DigitalZoomRatio => d.exif_capture_info.digital_zoom_ratio is None,
            Field::FocalLengthIn35mmFormat => d.exif_capture_info.focal_length_in_35mm_format is None,
            Field::SceneCaptureType => d.exif_capture_info.scene_capture_type is None,
            Field::GainControl => d.exif_capture_info.gain_control is None,
            Field::Contrast => d.exif_capture_info.contrast is None,
            Field::Saturation => d.exif_capture_info.saturation is None,
            Field::Sharpness => d.exif_capture_info.sharpness is None,
            Field::CustomRendered => d.exif_capture_info.custom_rendered is None,
            Field::DeviceSettingDescription => d.exif_capture_info.device_setting_description is None,
            Field::Gamma => d.exif_capture_info.gamma is None,
            Field::RelatedSoundFile => d.exif_capture_info.related_sound_file is None,
            Field::ImageUniqueID => d.exif_capture_info.image_unique_id is None,
            Field::CompositeImage => d.exif_capture_info.composite_image is None,
            Field::CompositeImageCount => d.exif_capture_info.composite_image_count is None,
            Field::CompositeImageExposureTimes => d.exif_capture_info.composite_image_exposure_times is None,
            Field::GPSLatitudeRef => d.gps_info.gps_latitude_ref is None,
            Field::GPSLatitude => d.gps_info.gps_latitude is None,
            Field::GPSLongitudeRef => d.gps_info.gps_longitude_ref is None,
            Field::GPSLongitude => d.gps_info.gps_longitude is None,
            Field::GPSMapDatum => d.gps_info.gps_map_datum is None,
            Field::GPSAltitudeRef => d.gps_info.gps_altitude_ref is None,
            Field::GPSAltitude => d.gps_info.gps_altitude is None,
            Field::GPSSatellites => d.gps_info.gps_satellites is None,
            Field::GPSStatus => d.gps_info.gps_status is None,
            Field::GPSMeasureMode => d.gps_info.gps_measure_mode is None,
            Field::GPSDOP => d.gps_info.gps_dop is None,
            Field::GPSSpeedRef => d.gps_info.gps_speed_ref is None,
            Field::GPSSpeed => d.gps_info.gps_speed is None,
            Field::GPSTrackRef => d.gps_info.gps_track_ref is None,
            Field::GPSTrack => d.gps_info.gps_track is None,
            Field::GPSImgDirectionRef => d.gps_info.gps_img_direction_ref is None,
            Field::GPSImgDirection => d.gps_info.gps_img_direction is None,
            Field::GPSDestLatitudeRef => d.gps_info.gps_dest_latitude_ref is None,
            Field::GPSDestLatitude => d.gps_info.gps_dest_latitude is None,
            Field::GPSDestLongitudeRef => d.gps_info.gps_dest_longitude_ref is None,
            Field::GPSDestLongitude => d.gps_info.gps_dest_longitude is None,
            Field::GPSDestBearingRef => d.gps_info.gps_dest_bearing_ref is None,
            Field::GPSDestBearing => d.gps_info.gps_dest_bearing is None,
            Field::GPSDestDistanceRef => d.gps_info.gps_dest_distance_ref is None,
            Field::GPSDestDistance => d.gps_info.gps_dest_distance is None,
            Field::GPSProcessingMethod => d.gps_info.gps_processing_method is None,
            Field::GPSAreaInformation => d.gps_info.gps_area_information is None,
            Field::GPSDateStamp => d.gps_info.gps_date_stamp is None,
            Field::GPSTimeStamp => d.gps_info.gps_time_stamp is None,
            Field::GPSDifferential => d.gps_info.gps_differential is None,
            Field::GPSHPositioningError => d.gps_info.gps_h_positioning_error is None,
            Field::GPSVersionID => d.gps_info.gps_version_id is None,
            Field::GPSInfo => d.gps_info.gps_info is None,
            Field::InteropOffset => d.interop_info.interop_offset is None,
            Field::InteroperabilityIndex => d.interop_info.interoperability_index is None,
            Field::InteroperabilityVersion => d.interop_info.interoperability_version is None,
            Field::ThumbnailOffset => d.thumbnail_info.thumbnail_offset is None,
            Field::ThumbnailLength => d.thumbnail_info.thumbnail_length is None,
            Field::ImageDescription => d.user_info.image_description is None,
            Field::Artist => d.user_info.artist is None,
            Field::Copyright => d.user_info.copyright is None,
            Field::UserComment => d.user_info.user_comment is None,
            Field::MakerNote => d.uneditable.maker_note is None,
        }
    }

    /// The fields a tag identifier writes: its own, and the companion it may seed.
    pub open spec fn owned(f: Field) -> Set<Field> {
        match f {
            Field::DateTimeOriginal => set![Field::DateTimeOriginal, Field::SubSecTimeOriginal],
            Field::CreateDate => set![Field::CreateDate, Field::SubSecTimeDigitized],
            Field::ModifyDate => set![Field::ModifyDate, Field::SubSecTime],
            Field::GPSLatitude => set![Field::GPSLatitude, Field::GPSLatitudeRef],
            Field::GPSLongitude => set![Field::GPSLongitude, Field::GPSLongitudeRef],
            Field::GPSAltitude => set![Field::GPSAltitude, Field::GPSAltitudeRef],
            Field::GPSSpeed => set![Field::GPSSpeed, Field::GPSSpeedRef],
            Field::GPSTrack => set![Field::GPSTrack, Field::GPSTrackRef],
            Field::GPSImgDirection => set![Field::GPSImgDirection, Field::GPSImgDirectionRef],
            Field::GPSDestLatitude => set![Field::GPSDestLatitude, Field::GPSDestLatitudeRef],
            Field::GPSDestLongitude => set![Field::GPSDestLongitude, Field::GPSDestLongitudeRef],
            Field::GPSDestBearing => set![Field::GPSDestBearing, Field::GPSDestBearingRef],
            Field::GPSDestDistance => set![Field::GPSDestDistance, Field::GPSDestDistanceRef],
            Field::GPSDateStamp => set![Field::GPSDateStamp, Field::GPSTimeStamp],
            Field::GPSTimeStamp => set![Field::GPSTimeStamp, Field::GPSDateStamp],
            _ => set![f],
        }
    }

    /// How writing payload `v` into field `f` turns `a` into `b`; `now` is the moment a GPS
    /// date or time stamp seeds its missing companion with. A payload of the wrong shape leaves
    /// the field as it was.
    pub open spec fn field_applied(f: Field, v: TagValue, a: ExifEditData, b: ExifEditData, now: DateTime) -> bool {
        match f {
            Field::Make => match v {
                TagValue::Ascii(s) => opt_text(b.basic_image_info.make, s@),
                _ => b.basic_image_info.make == a.basic_image_info.make,
            },
            Field::Model => match v {
                TagValue::Ascii(s) => opt_text(b.basic_image_info.model, s@),
                _ => b.basic_image_info.model == a.basic_image_info.model,
            },
            Field::Software => match v {
                TagValue::Ascii(s) => opt_text(b.basic_image_info.software, s@),
                _ => b.basic_image_info.software == a.basic_image_info.software,
            },
            Field::ImageWidth => match v {
                TagValue::U32(l) => if l@.len() >= 1 {
                    b.basic_image_info.image_width == Some(l@[0])
                } else {
                    b.basic_image_info.image_width == a.basic_image_info.image_width
                },
                _ => b.basic_image_info.image_width == a.basic_image_info.image_width,
            },
            Field::ImageHeight => match v {
                TagValue::U32(l) => if l@.len() >= 1 {
                    b.basic_image_info.image_height == Some(l@[0])
                } else {
                    b.basic_image_info.image_height == a.basic_image_info.image_height
                },
                _ => b.basic_image_info.image_height == a.basic_image_info.image_height,
            },
            Field::ExifImageWidth => match v {
                TagValue::U16(l) => if l@.len() >= 1 {
                    b.basic_image_info.exif_image_width == Some(l@[0])
                } else {
                    b.basic_image_info.exif_image_width == a.basic_image_info.exif_image_width
                },
                TagValue::U32(l) => if l@.len() >= 1 && l@[0] <= u16::MAX {
                    b.basic_image_info.exif_image_width == Some(l@[0] as u16)
                } else {
                    b.basic_image_info.exif_image_width == a.basic_image_info.exif_image_width
                },
                _ => b.basic_image_info.exif_image_width == a.basic_image_info.exif_image_width,
            },
            Field::ExifImageHeight => match v {
                TagValue::U16(l) => if l@.len() >= 1 {
                    b.basic_image_info.exif_image_height == Some(l@[0])
                } else {
                    b.basic_image_info.exif_image_height == a.basic_image_info.exif_image_height
                },
                TagValue::U32(l) => if l@.len() >= 1 && l@[0] <= u16::MAX {
                    b.basic_image_info.exif_image_height == Some(l@[0] as u16)
                } else {
                    b.basic_image_info.exif_image_height == a.basic_image_info.exif_image_height
                },
                _ => b.basic_image_info.exif_image_height == a.basic_image_info.exif_image_height,
            },
            Field::XResolution => match v {
                TagValue::URational(l) => if l@.len() >= 1 {
                    b.basic_image_info.x_resolution == Some(F64::from_ur64_spec(l@[0]))
                } else {
                    b.basic_image_info.x_resolution == a.basic_image_info.x_resolution
                },
                _ => b.basic_image_info.x_resolution == a.basic_image_info.x_resolution,
            },
            Field::YResolution => match v {
                TagValue::URational(l) => if l@.len() >= 1 {
                    b.basic_image_info.y_resolution == Some(F64::from_ur64_spec(l@[0]))
                } else {
                    b.basic_image_info.y_resolution == a.basic_image_info.y_resolution
                },
                _ => b.basic_image_info.y_resolution == a.basic_image_info.y_resolution,
            },
            Field::ResolutionUnit => match v {
                TagValue::U16(l) => b.basic_image_info.resolution_unit matches Some(x) && ResolutionUnit::decodes(l@, x),
                _ => b.basic_image_info.resolution_unit == a.basic_image_info.resolution_unit,
            },
            Field::Compression => match v {
                TagValue::U16(l) => b.basic_image_info.compression matches Some(x) && Compression::decodes(l@, x),
                _ => b.basic_image_info.compression == a.basic_image_info.compression,
            },
            Field::PhotometricInterpretation => match v {
                TagValue::U16(l) => b.basic_image_info.photometric_interpretation matches Some(x) && PhotometricInterpretation::decodes(l@, x),
                _ => b.basic_image_info.photometric_interpretation == a.basic_image_info.photometric_interpretation,
            },
            Field::ColorSpace => match v {
                TagValue::U16(l) => b.basic_image_info.color_space matches Some(x) && ColorSpace::decodes(l@, x),
                _ => b.basic_image_info.color_space == a.basic_image_info.color_space,
            },
            Field::BitsPerSample => match v {
                TagValue::U16(l) => b.basic_image_info.bits_per_sample matches Some(x) && x@ == l@,
                _ => b.basic_image_info.bits_per_sample == a.basic_image_info.bits_per_sample,
            },
            Field::SamplesPerPixel => match v {
                TagValue::U16(l) => if l@.len() >= 1 {
                    b.basic_image_info.samples_per_pixel == Some(l@[0])
                } else {
                    b.basic_image_info.samples_per_pixel == a.basic_image_info.samples_per_pixel
                },
                _ => b.basic_image_info.samples_per_pixel == a.basic_image_info.samples_per_pixel,
            },
            Field::PlanarConfiguration => match v {
                TagValue::U16(l) => b.basic_image_info.planar_configuration matches Some(x) && PlanarConfiguration::decodes(l@, x),
                _ => b.basic_image_info.planar_configuration == a.basic_image_info.planar_configuration,
            },
            Field::YCbCrSubSampling => match v {
                TagValue::U16(l) => b.basic_image_info.ycbcr_sub_sampling matches Some(x) && YCbCrSubSampling::decodes(l@, x),
                _ => b.basic_image_info.ycbcr_sub_sampling == a.basic_image_info.ycbcr_sub_sampling,
            },
            Field::YCbCrPositioning => match v {
                TagValue::U16(l) => b.basic_image_info.ycbcr_positioning matches Some(x) && YCbCrPositioning::decodes(l@, x),
                _ => b.basic_image_info.ycbcr_positioning == a.basic_image_info.ycbcr_positioning,
            },
            Field::YCbCrCoefficients => match v {
                TagValue::URational(l) => if l@.len() >= 1 {
                    b.basic_image_info.ycbcr_coefficients matches Some(x) && x@ == padded(l@.map_values(|u: uR64| F64::from_ur64_spec(u)), 3)
                } else {
                    b.basic_image_info.ycbcr_coefficients == a.basic_image_info.ycbcr_coefficients
                },
                _ => b.basic_image_info.ycbcr_coefficients == a.basic_image_info.ycbcr_coefficients,
            },
            Field::TransferFunction => match v {
                TagValue::U16(l) => if l@.len() >= 1 {
                    b.basic_image_info.transfer_function matches Some(x) && x@ == padded(l@, 768)
                } else {
                    b.basic_image_info.transfer_function == a.basic_image_info.transfer_function
                },
                _ => b.basic_image_info.transfer_function == a.basic_image_info.transfer_function,
            },
            Field::WhitePoint => match v {
                TagValue::URational(l) => if l@.len() >= 1 {
                    b.basic_image_info.white_point matches Some(x) && x@ == padded(l@.map_values(|u: uR64| F64::from_ur64_spec(u)), 2)
                } else {
                    b.basic_image_info.white_point == a.basic_image_info.white_point
                },
                _ => b.basic_image_info.white_point == a.basic_image_info.white_point,
            },
            Field::PrimaryChromaticities => match v {
                TagValue::URational(l) => if l@.len() >= 1 {
                    b.basic_image_info.primary_chromaticities matches Some(x) && x@ == padded(l@.map_values(|u: uR64| F64::from_ur64_spec(u)), 6)
                } else {
                    b.basic_image_info.primary_chromaticities == a.basic_image_info.primary_chromaticities
                },
                _ => b.basic_image_info.primary_chromaticities == a.basic_image_info.primary_chromaticities,
            },
            Field::ReferenceBlackWhite => match v {
                TagValue::URational(l) => if l@.len() >= 1 {
                    b.basic_image_info.reference_black_white matches Some(x) && x@ == padded(l@.map_values(|u: uR64| F64::from_ur64_spec(u)), 6)
                } else {
                    b.basic_image_info.reference_black_white == a.basic_image_info.reference_black_white
                },
                _ => b.basic_image_info.reference_black_white == a.basic_image_info.reference_black_white,
            },
            Field::ColorMap => match v {
                TagValue::U16(l) => b.basic_image_info.color_map matches Some(x) && x@ == l@,
                _ => b.basic_image_info.color_map == a.basic_image_info.color_map,
            },
            Field::StripOffsets => match v {
                TagValue::U32(l) => b.basic_image_info.strip_offsets matches Some(x) && x@ == l@,
                _ => b.basic_image_info.strip_offsets == a.basic_image_info.strip_offsets,
            },
            Field::StripByteCounts => match v {
                TagValue::U32(l) => b.basic_image_info.strip_byte_counts matches Some(x) && x@ == l@,
                _ => b.basic_image_info.strip_byte_counts == a.basic_image_info.strip_byte_counts,
            },
            Field::RowsPerStrip => match v {
                TagValue::U32(l) => if l@.len() >= 1 {
                    b.basic_image_info.rows_per_strip == Some(l@[0])
                } else {
                    b.basic_image_info.rows_per_strip == a.basic_image_info.rows_per_strip
                },
                _ => b.basic_image_info.rows_per_strip == a.basic_image_info.rows_per_strip,
            },
            Field::Orientation => match v {
                TagValue::U16(l) => b.basic_image_info.orientation matches Some(x) && Orientation::decodes(l@, x),
                _ => b.basic_image_info.orientation == a.basic_image_info.orientation,
            },
            Field::CellWidth => match v {
                TagValue::U16(l) => if l@.len() >= 1 {
                    b.basic_image_info.cell_width == Some(l@[0])
                } else {
                    b.basic_image_info.cell_width == a.basic_image_info.cell_width
                },
                _ => b.basic_image_info.cell_width == a.basic_image_info.cell_width,
            },
            Field::CellHeight => match v {
                TagValue::U16(l) => if l@.len() >= 1 {
                    b.basic_image_info.cell_height == Some(l@[0])
                } else {
                    b.basic_image_info.cell_height == a.basic_image_info.cell_height
                },
                _ => b.basic_image_info.cell_height == a.basic_image_info.cell_height,
            },
            Field::SerialNumber => match v {
                TagValue::Ascii(s) => opt_text(b.basic_image_info.serial_number, s@),
                _ => b.basic_image_info.serial_number == a.basic_image_info.serial_number,
            },
            Field::OwnerName => match v {
                TagValue::Ascii(s) => opt_text(b.basic_image_info.owner_name, s@),
                _ => b.basic_image_info.owner_name == a.basic_image_info.owner_name,
            },
            Field::LensInfo => match v {
                TagValue::URational(l) => if l@.len() >= 1 {
                    b.basic_image_info.lens_info matches Some(x) && x@ == padded(l@.map_values(|u: uR64| F64::from_ur64_spec(u)), 4)
                } else {
                    b.basic_image_info.lens_info == a.basic_image_info.lens_info
                },
                _ => b.basic_image_info.lens_info == a.basic_image_info.lens_info,
            },
            Field::DateTimeOriginal => match v {
                TagValue::Ascii(s) => if exif_datetime(s@) is Some {
                    &&& b.exif_capture_info.date_time_original matches Some(d) && exif_datetime(s@) == Some(d.parts())
                    &&& seeded(a.exif_capture_info.sub_sec_time_original, b.exif_capture_info.sub_sec_time_original, 0u16)
                } else {
                    &&& b.exif_capture_info.date_time_original == a.exif_capture_info.date_time_original
                    &&& b.exif_capture_info.sub_sec_time_original == a.exif_capture_info.sub_sec_time_original
                },
                _ => {
                    &&& b.exif_capture_info.date_time_original == a.exif_capture_info.date_time_original
                    &&& b.exif_capture_info.sub_sec_time_original == a.exif_capture_info.sub_sec_time_original
                },
            },
            Field::OffsetTimeOriginal => match v {
                TagValue::Ascii(s) => if TimeOffset::parse(s@) is Some {
                    b.exif_capture_info.offset_time_original == TimeOffset::parse(s@)
                } else {
                    b.exif_capture_info.offset_time_original == a.exif_capture_info.offset_time_original
                },
                _ => b.exif_capture_info.offset_time_original == a.exif_capture_info.offset_time_original,
            },
            Field::SubSecTimeOriginal => match v {
                TagValue::Ascii(s) => if parse_u16_spec(s@) is Some {
                    b.exif_capture_info.sub_sec_time_original == parse_u16_spec(s@)
                } else {
                    b.exif_capture_info.sub_sec_time_original == a.exif_capture_info.sub_sec_time_original
                },
                _ => b.exif_capture_info.sub_sec_time_original == a.exif_capture_info.sub_sec_time_original,
            },
            Field::CreateDate => match v {
                TagValue::Ascii(s) => if exif_datetime(s@) is Some {
                    &&& b.exif_capture_info.create_date matches Some(d) && exif_datetime(s@) == Some(d.parts())
                    &&& seeded(a.exif_capture_info.sub_sec_time_digitized, b.exif_capture_info.sub_sec_time_digitized, 0u16)
                } else {
                    &&& b.exif_capture_info.create_date == a.exif_capture_info.create_date
                    &&& b.exif_capture_info.sub_sec_time_digitized == a.exif_capture_info.sub_sec_time_digitized
                },
                _ => {
                    &&& b.exif_capture_info.create_date == a.exif_capture_info.create_date
                    &&& b.exif_capture_info.sub_sec_time_digitized == a.exif_capture_info.sub_sec_time_digitized
                },
            },
            Field::OffsetTimeDigitized => match v {
                TagValue::Ascii(s) => if TimeOffset::parse(s@) is Some {
                    b.exif_capture_info.offset_time_digitized == TimeOffset::parse(s@)
                } else {
                    b.exif_capture_info.offset_time_digitized == a.exif_capture_info.offset_time_digitized
                },
                _ => b.exif_capture_info.offset_time_digitized == a.exif_capture_info.offset_time_digitized,
            },
            Field::SubSecTimeDigitized => match v {
                TagValue::Ascii(s) => if parse_u16_spec(s@) is Some {
                    b.exif_capture_info.sub_sec_time_digitized == parse_u16_spec(s@)
                } else {
                    b.exif_capture_info.sub_sec_time_digitized == a.exif_capture_info.sub_sec_time_digitized
                },
                _ => b.exif_capture_info.sub_sec_time_digitized == a.exif_capture_info.sub_sec_time_digitized,
            },
            Field::ModifyDate => match v {
                TagValue::Ascii(s) => if exif_datetime(s@) is Some {
                    &&& b.exif_capture_info.modify_date matches Some(d) && exif_datetime(s@) == Some(d.parts())
                    &&& seeded(a.exif_capture_info.sub_sec_time, b.exif_capture_info.sub_sec_time, 0u16)
                } else {
                    &&& b.exif_capture_info.modify_date == a.exif_capture_info.modify_date
                    &&& b.exif_capture_info.sub_sec_time == a.exif_capture_info.sub_sec_time
                },
                _ => {
                    &&& b.exif_capture_info.modify_date == a.exif_capture_info.modify_date
                    &&& b.exif_capture_info.sub_sec_time == a.exif_capture_info.sub_sec_time
                },
            },
            Field::OffsetTime => match v {
                TagValue::Ascii(s) => if TimeOffset::parse(s@) is Some {
                    b.exif_capture_info.offset_time == TimeOffset::parse(s@)
                } else {
                    b.exif_capture_info.offset_time == a.exif_capture_info.offset_time
                },
                _ => b.exif_capture_info.offset_time == a.exif_capture_info.offset_time,
            },
            Field::SubSecTime => match v {
                TagValue::Ascii(s) => if parse_u16_spec(s@) is Some {
                    b.exif_capture_info.sub_sec_time == parse_u16_spec(s@)
                } else {
                    b.exif_capture_info.sub_sec_time == a.exif_capture_info.sub_sec_time
                },
                _ => b.exif_capture_info.sub_sec_time == a.exif_capture_info.sub_sec_time,
            },
            Field::LensMake => match v {
                TagValue::Ascii(s) => opt_text(b.exif_capture_info.lens_make, s@),
                _ => b.exif_capture_info.lens_make == a.exif_capture_info.lens_make,
            },
            Field::LensModel => match v {
                TagValue::Ascii(s) => opt_text(b.exif_capture_info.lens_model, s@),
                _ => b.exif_capture_info.lens_model == a.exif_capture_info.lens_model,
            },
            Field::LensSerialNumber => match v {
                TagValue::Ascii(s) => opt_text(b.exif_capture_info.lens_serial_number, s@),
                _ => b.exif_capture_info.lens_serial_number == a.exif_capture_info.lens_serial_number,
            },
            Field::MaxApertureValue => match v {
                TagValue::URational(l) => if l@.len() >= 1 {
                    b.exif_capture_info.max_aperture_value == Some(F64::from_ur64_spec(l@[0]))
                } else {
                    b.exif_capture_info.max_aperture_value == a.exif_capture_info.max_aperture_value
                },
                _ => b.exif_capture_info.max_aperture_value == a.exif_capture_info.max_aperture_value,
            },
            Field::ExposureProgram => match v {
                TagValue::U16(l) => b.exif_capture_info.exposure_program matches Some(x) && ExposureProgram::decodes(l@, x),
                _ => b.exif_capture_info.exposure_program == a.exif_capture_info.exposure_program,
            },
            Field::ExposureMode => match v {
                TagValue::U16(l) => b.exif_capture_info.exposure_mode matches Some(x) && ExposureMode::decodes(l@, x),
                _ => b.exif_capture_info.exposure_mode == a.exif_capture_info.exposure_mode,
            },
            Field::ExposureTime => match v {
                TagValue::URational(l) => if l@.len() >= 1 {
                    b.exif_capture_info.exposure_time == Some(F64::from_ur64_spec(l@[0]))
                } else {
                    b.exif_capture_info.exposure_time == a.exif_capture_info.exposure_time
                },
                _ => b.exif_capture_info.exposure_time == a.exif_capture_info.exposure_time,
            },
            Field::ShutterSpeedValue => match v {
                TagValue::IRational(l) => if l@.len() >= 1 {
                    b.exif_capture_info.shutter_speed_value == Some(F64::from_ir64_spec(l@[0]))
                } else {
                    b.exif_capture_info.shutter_speed_value == a.exif_capture_info.shutter_speed_value
                },
                _ => b.exif_capture_info.shutter_speed_value == a.exif_capture_info.shutter_speed_value,
            },
            Field::FNumber => match v {
                TagValue::URational(l) => if l@.len() >= 1 {
                    b.exif_capture_info.f_number == Some(F64::from_ur64_spec(l@[0]))
                } else {
                    b.exif_capture_info.f_number == a.exif_capture_info.f_number
                },
                _ => b.exif_capture_info.f_number == a.exif_capture_info.f_number,
            },
            Field::ApertureValue => match v {
                TagValue::URational(l) => if l@.len() >= 1 {
                    b.exif_capture_info.aperture_value == Some(F64::from_ur64_spec(l@[0]))
                } else {
                    b.exif_capture_info.aperture_value == a.exif_capture_info.aperture_value
                },
                _ => b.exif_capture_info.aperture_value == a.exif_capture_info.aperture_value,
            },
            Field::ExposureCompensation => match v {
                TagValue::IRational(l) => if l@.len() >= 1 {
                    b.exif_capture_info.exposure_compensation == Some(F64::from_ir64_spec(l@[0]))
                } else {
                    b.exif_capture_info.exposure_compensation == a.exif_capture_info.exposure_compensation
                },
                _ => b.exif_capture_info.exposure_compensation == a.exif_capture_info.exposure_compensation,
            },
            Field::BrightnessValue => match v {
                TagValue::IRational(l) => if l@.len() >= 1 {
                    b.exif_capture_info.brightness_value == Some(F64::from_ir64_spec(l@[0]))
                } else {
                    b.exif_capture_info.brightness_value == a.exif_capture_info.brightness_value
                },
                _ => b.exif_capture_info.brightness_value == a.exif_capture_info.brightness_value,
            },
            Field::MeteringMode => match v {
                TagValue::U16(l) => b.exif_capture_info.metering_mode matches Some(x) && MeteringMode::decodes(l@, x),
                _ => b.exif_capture_info.metering_mode == a.exif_capture_info.metering_mode,
            },
            Field::LightSource => match v {
                TagValue::U16(l) => b.exif_capture_info.light_source matches Some(x) && LightSource::decodes(l@, x),
                _ => b.exif_capture_info.light_source == a.exif_capture_info.light_source,
            },
            Field::Flash => match v {
                TagValue::U16(l) => b.exif_capture_info.flash matches Some(x) && Flash::decodes(l@, x),
                _ => b.exif_capture_info.flash == a.exif_capture_info.flash,
            },
            Field::FocalLength => match v {
                TagValue::URational(l) => if l@.len() >= 1 {
                    b.exif_capture_info.focal_length == Some(F64::from_ur64_spec(l@[0]))
                } else {
                    b.exif_capture_info.focal_length == a.exif_capture_info.focal_length
                },
                _ => b.exif_capture_info.focal_length == a.exif_capture_info.focal_length,
            },
            Field::SubjectArea => match v {
                TagValue::U16(l) => b.exif_capture_info.subject_area matches Some(x) && x@ == l@,
                _ => b.exif_capture_info.subject_area == a.exif_capture_info.subject_area,
            },
            Field::SubjectLocation => match v {
                TagValue::U16(l) => if l@.len() >= 1 {
                    b.exif_capture_info.subject_location matches Some(x) && x@ == padded(l@, 2)
                } else {
                    b.exif_capture_info.subject_location == a.exif_capture_info.subject_location
                },
                _ => b.exif_capture_info.subject_location == a.exif_capture_info.subject_location,
            },
            Field::SensitivityType => match v {
                TagValue::U16(l) => b.exif_capture_info.sensitivity_type matches Some(x) && SensitivityType::decodes(l@, x),
                _ => b.exif_capture_info.sensitivity_type == a.exif_capture_info.sensitivity_type,
            },
            Field::ISO => match v {
                TagValue::U16(l) => b.exif_capture_info.iso matches Some(x) && x@ == l@,
                _ => b.exif_capture_info.iso == a.exif_capture_info.iso,
            },
            Field::ISOSpeed => match v {
                TagValue::U32(l) => if l@.len() >= 1 {
                    b.exif_capture_info.iso_speed == Some(l@[0])
                } else {
                    b.exif_capture_info.iso_speed == a.exif_capture_info.iso_speed
                },
                _ => b.exif_capture_info.iso_speed == a.exif_capture_info.iso_speed,
            },
            Field::StandardOutputSensitivity => match v {
                TagValue::U32(l) => if l@.len() >= 1 {
                    b.exif_capture_info.standard_output_sensitivity == Some(l@[0])
                } else {
                    b.exif_capture_info.standard_output_sensitivity == a.exif_capture_info.standard_output_sensitivity
                },
                _ => b.exif_capture_info.standard_output_sensitivity == a.exif_capture_info.standard_output_sensitivity,
            },
            Field::RecommendedExposureIndex => match v {
                TagValue::U32(l) => if l@.len() >= 1 {
                    b.exif_capture_info.recommended_exposure_index == Some(l@[0])
                } else {
                    b.exif_capture_info.recommended_exposure_index == a.exif_capture_info.recommended_exposure_index
                },
                _ => b.exif_capture_info.recommended_exposure_index == a.exif_capture_info.recommended_exposure_index,
            },
            Field::ExposureIndex => match v {
                TagValue::URational(l) => if l@.len() >= 1 {
                    b.exif_capture_info.exposure_index == Some(F64::from_ur64_spec(l@[0]))
                } else {
                    b.exif_capture_info.exposure_index == a.exif_capture_info.exposure_index
                },
                _ => b.exif_capture_info.exposure_index == a.exif_capture_info.exposure_index,
            },
            Field::ISOSpeedLatitudeyyy => match v {
                TagValue::U32(l) => if l@.len() >= 1 {
                    b.exif_capture_info.iso_speed_latitude_yyy == Some(l@[0])
                } else {
                    b.exif_capture_info.iso_speed_latitude_yyy == a.exif_capture_info.iso_speed_latitude_yyy
                },
                _ => b.exif_capture_info.iso_speed_latitude_yyy == a.exif_capture_info.iso_speed_latitude_yyy,
            },
            Field::ISOSpeedLatitudezzz => match v {
                TagValue::U32(l) => if l@.len() >= 1 {
                    b.exif_capture_info.iso_speed_latitude_zzz == Some(l@[0])
                } else {
                    b.exif_capture_info.iso_speed_latitude_zzz == a.exif_capture_info.iso_speed_latitude_zzz
                },
                _ => b.exif_capture_info.iso_speed_latitude_zzz == a.exif_capture_info.iso_speed_latitude_zzz,
            },
            Field::ExifVersion => match v {
                TagValue::Undefined(l) => if valid_utf8(l@) {
                    opt_text(b.exif_capture_info.exif_version, decode_utf8(l@))
                } else {
                    b.exif_capture_info.exif_version == a.exif_capture_info.exif_version
                },
                _ => b.exif_capture_info.exif_version == a.exif_capture_info.exif_version,
            },
            Field::FlashpixVersion => match v {
                TagValue::Undefined(l) => if valid_utf8(l@) {
                    opt_text(b.exif_capture_info.flashpix_version, decode_utf8(l@))
                } else {
                    b.exif_capture_info.flashpix_version == a.exif_capture_info.flashpix_version
                },
                _ => b.exif_capture_info.flashpix_version == a.exif_capture_info.flashpix_version,
            },
            Field::ExifOffset => match v {
                TagValue::U32(l) => if l@.len() >= 1 {
                    b.exif_capture_info.exif_offset == Some(l@[0])
                } else {
                    b.exif_capture_info.exif_offset == a.exif_capture_info.exif_offset
                },
                _ => b.exif_capture_info.exif_offset == a.exif_capture_info.exif_offset,
            },
            Field::ComponentsConfiguration => match v {
                TagValue::Undefined(l) => if l@.len() == 4 {
                    b.exif_capture_info.components_configuration matches Some(c) && forall|i: int| 0 <= i < 4 ==> ComponentsConfiguration::decodes(seq![l@[i] as u16], #[trigger] c@[i])
                } else {
                    b.exif_capture_info.components_configuration == a.exif_capture_info.components_configuration
                },
                _ => b.exif_capture_info.components_configuration == a.exif_capture_info.components_configuration,
            },
            Field::CompressedBitsPerPixel => match v {
                TagValue::URational(l) => if l@.len() >= 1 {
                    b.exif_capture_info.compressed_bits_per_pixel == Some(F64::from_ur64_spec(l@[0]))
                } else {
                    b.exif_capture_info.compressed_bits_per_pixel == a.exif_capture_info.compressed_bits_per_pixel
                },
                _ => b.exif_capture_info.compressed_bits_per_pixel == a.exif_capture_info.compressed_bits_per_pixel,
            },
            Field::SensingMethod => match v {
                TagValue::U16(l) => b.exif_capture_info.sensing_method matches Some(x) && SensingMethod::decodes(l@, x),
                _ => b.exif_capture_info.sensing_method == a.exif_capture_info.sensing_method,
            },
            Field::FileSource => match v {
                TagValue::Undefined(l) => b.exif_capture_info.file_source matches Some(x) && FileSource::decodes(l@.map_values(|c: u8| c as u16), x),
                _ => b.exif_capture_info.file_source == a.exif_capture_info.file_source,
            },
            Field::SceneType => match v {
                TagValue::Undefined(l) => b.exif_capture_info.scene_type matches Some(x) && SceneType::decodes(l@.map_values(|c: u8| c as u16), x),
                _ => b.exif_capture_info.scene_type == a.exif_capture_info.scene_type,
            },
            Field::CFAPattern => match v {
                TagValue::Undefined(l) => if CFAPattern::length_agrees(l@) {
                    b.exif_capture_info.cfa_pattern matches Some(q) && CFAPattern::unpacks(l@, q)
                } else {
                    b.exif_capture_info.cfa_pattern == a.exif_capture_info.cfa_pattern
                },
                _ => b.exif_capture_info.cfa_pattern == a.exif_capture_info.cfa_pattern,
            },
            Field::AmbientTemperature => match v {
                TagValue::IRational(l) => if l@.len() >= 1 {
                    b.exif_capture_info.ambient_temperature == Some(F64::from_ir64_spec(l@[0]))
                } else {
                    b.exif_capture_info.ambient_temperature == a.exif_capture_info.ambient_temperature
                },
                _ => b.exif_capture_info.ambient_temperature == a.exif_capture_info.ambient_temperature,
            },
            Field::Humidity => match v {
                TagValue::URational(l) => if l@.len() >= 1 {
                    b.exif_capture_info.humidity == Some(F64::from_ur64_spec(l@[0]))
                } else {
                    b.exif_capture_info.humidity == a.exif_capture_info.humidity
                },
                _ => b.exif_capture_info.humidity == a.exif_capture_info.humidity,
            },
            Field::Pressure => match v {
                TagValue::URational(l) => if l@.len() >= 1 {
                    b.exif_capture_info.pressure == Some(F64::from_ur64_spec(l@[0]))
                } else {
                    b.exif_capture_info.pressure == a.exif_capture_info.pressure
                },
                _ => b.exif_capture_info.pressure == a.exif_capture_info.pressure,
            },
            Field::WaterDepth => match v {
                TagValue::IRational(l) => if l@.len() >= 1 {
                    b.exif_capture_info.water_depth == Some(F64::from_ir64_spec(l@[0]))
                } else {
                    b.exif_capture_info.water_depth == a.exif_capture_info.water_depth
                },
                _ => b.exif_capture_info.water_depth == a.exif_capture_info.water_depth,
            },
            Field::Acceleration => match v {
                TagValue::URational(l) => if l@.len() >= 1 {
                    b.exif_capture_info.acceleration == Some(F64::from_ur64_spec(l@[0]))
                } else {
                    b.exif_capture_info.acceleration == a.exif_capture_info.acceleration
                },
                _ => b.exif_capture_info.acceleration == a.exif_capture_info.acceleration,
            },
            Field::CameraElevationAngle => match v {
                TagValue::IRational(l) => if l@.len() >= 1 {
                    b.exif_capture_info.camera_elevation_angle == Some(F64::from_ir64_spec(l@[0]))
                } else {
                    b.exif_capture_info.camera_elevation_angle == a.exif_capture_info.camera_elevation_angle
                },
                _ => b.exif_capture_info.camera_elevation_angle == a.exif_capture_info.camera_elevation_angle,
            },
            Field::SpectralSensitivity => match v {
                TagValue::Ascii(s) => opt_text(b.exif_capture_info.spectral_sensitivity, s@),
                _ => b.exif_capture_info.spectral_sensitivity == a.exif_capture_info.spectral_sensitivity,
            },
            Field::OECF => match v {
                TagValue::Undefined(l) => b.exif_capture_info.oecf matches Some(x) && x@ == l@,
                _ => b.exif_capture_info.oecf == a.exif_capture_info.oecf,
            },
            Field::SubjectDistance => match v {
                TagValue::URational(l) => if l@.len() >= 1 {
                    b.exif_capture_info.subject_distance == Some(F64::from_ur64_spec(l@[0]))
                } else {
                    b.exif_capture_info.subject_distance == a.exif_capture_info.subject_distance
                },
                _ => b.exif_capture_info.subject_distance == a.exif_capture_info.subject_distance,
            },
            Field::SubjectDistanceRange => match v {
                TagValue::U16(l) => if l@.len() >= 1 {
                    b.exif_capture_info.subject_distance_range == Some(l@[0])
                } else {
                    b.exif_capture_info.subject_distance_range == a.exif_capture_info.subject_distance_range
                },
                _ => b.exif_capture_info.subject_distance_range == a.exif_capture_info.subject_distance_range,
            },
            Field::FlashEnergy => match v {
                TagValue::URational(l) => if l@.len() >= 1 {
                    b.exif_capture_info.flash_energy == Some(F64::from_ur64_spec(l@[0]))
                } else {
                    b.exif_capture_info.flash_energy == a.exif_capture_info.flash_energy
                },
                _ => b.exif_capture_info.flash_energy == a.exif_capture_info.flash_energy,
            },
            Field::SpatialFrequencyResponse => match v {
                TagValue::U16(l) => b.exif_capture_info.spatial_frequency_response matches Some(x) && x@ == l@,
                _ => b.exif_capture_info.spatial_frequency_response == a.exif_capture_info.spatial_frequency_response,
            },
            Field::FocalPlaneXResolution => match v {
                TagValue::URational(l) => if l@.len() >= 1 {
                    b.exif_capture_info.focal_plane_x_resolution == Some(F64::from_ur64_spec(l@[0]))
                } else {
                    b.exif_capture_info.focal_plane_x_resolution == a.exif_capture_info.focal_plane_x_resolution
                },
                _ => b.exif_capture_info.focal_plane_x_resolution == a.exif_capture_info.focal_plane_x_resolution,
            },
            Field::FocalPlaneYResolution => match v {
                TagValue::URational(l) => if l@.len() >= 1 {
                    b.exif_capture_info.focal_plane_y_resolution == Some(F64::from_ur64_spec(l@[0]))
                } else {
                    b.exif_capture_info.focal_plane_y_resolution == a.exif_capture_info.focal_plane_y_resolution
                },
                _ => b.exif_capture_info.focal_plane_y_resolution == a.exif_capture_info.focal_plane_y_resolution,
            },
            Field::FocalPlaneResolutionUnit => match v {
                TagValue::U16(l) => b.exif_capture_info.focal_plane_resolution_unit matches Some(x) && FocalPlaneResolutionUnit::decodes(l@, x),
                _ => b.exif_capture_info.focal_plane_resolution_unit == a.exif_capture_info.focal_plane_resolution_unit,
            },
            Field::WhiteBalance => match v {
                TagValue::U16(l) => b.exif_capture_info.white_balance matches Some(x) && WhiteBalance::decodes(l@, x),
                _ => b.exif_capture_info.white_balance == a.exif_capture_info.white_balance,
            },
            Field::DigitalZoomRatio => match v {
                TagValue::URational(l) => if l@.len() >= 1 {
                    b.exif_capture_info.digital_zoom_ratio == Some(F64::from_ur64_spec(l@[0]))
                } else {
                    b.exif_capture_info.digital_zoom_ratio == a.exif_capture_info.digital_zoom_ratio
                },
                _ => b.exif_capture_info.digital_zoom_ratio == a.exif_capture_info.digital_zoom_ratio,
            },
            Field::FocalLengthIn35mmFormat => match v {
                TagValue::U16(l) => if l@.len() >= 1 {
                    b.exif_capture_info.focal_length_in_35mm_format == Some(l@[0])
                } else {
                    b.exif_capture_info.focal_length_in_35mm_format == a.exif_capture_info.focal_length_in_35mm_format
                },
                _ => b.exif_capture_info.focal_length_in_35mm_format == a.exif_capture_info.focal_length_in_35mm_format,
            },
            Field::SceneCaptureType => match v {
                TagValue::U16(l) => b.exif_capture_info.scene_capture_type matches Some(x) && SceneCaptureType::decodes(l@, x),
                _ => b.exif_capture_info.scene_capture_type == a.exif_capture_info.scene_capture_type,
            },
            Field::GainControl => match v {
                TagValue::U16(l) => b.exif_capture_info.gain_control matches Some(x) && GainControl::decodes(l@, x),
                _ => b.exif_capture_info.gain_control == a.exif_capture_info.gain_control,
            },
            Field::Contrast => match v {
                TagValue::U16(l) => b.exif_capture_info.contrast matches Some(x) && Contrast::decodes(l@, x),
                _ => b.exif_capture_info.contrast == a.exif_capture_info.contrast,
            },
            Field::Saturation => match v {
                TagValue::U16(l) => b.exif_capture_info.saturation matches Some(x) && Saturation::decodes(l@, x),
                _ => b.exif_capture_info.saturation == a.exif_capture_info.saturation,
            },
            Field::Sharpness => match v {
                TagValue::U16(l) => b.exif_capture_info.sharpness matches Some(x) && Sharpness::decodes(l@, x),
                _ => b.exif_capture_info.sharpness == a.exif_capture_info.sharpness,
            },
            Field::CustomRendered => match v {
                TagValue::U16(l) => b.exif_capture_info.custom_rendered matches Some(x) && CustomRendered::decodes(l@, x),
                _ => b.exif_capture_info.custom_rendered == a.exif_capture_info.custom_rendered,
            },
            Field::DeviceSettingDescription => match v {
                TagValue::Undefined(l) => b.exif_capture_info.device_setting_description matches Some(x) && x@ == l@,
                _ => b.exif_capture_info.device_setting_description == a.exif_capture_info.device_setting_description,
            },
            Field::Gamma => match v {
                TagValue::URational(l) => if l@.len() >= 1 {
                    b.exif_capture_info.gamma == Some(F64::from_ur64_spec(l@[0]))
                } else {
                    b.exif_capture_info.gamma == a.exif_capture_info.gamma
                },
                _ => b.exif_capture_info.gamma == a.exif_capture_info.gamma,
            },
            Field::RelatedSoundFile => match v {
                TagValue::Ascii(s) => opt_text(b.exif_capture_info.related_sound_file, s@),
                _ => b.exif_capture_info.related_sound_file == a.exif_capture_info.related_sound_file,
            },
            Field::ImageUniqueID => match v {
                TagValue::Ascii(s) => opt_text(b.exif_capture_info.image_unique_id, s@),
                _ => b.exif_capture_info.image_unique_id == a.exif_capture_info.image_unique_id,
            },
            Field::CompositeImage => match v {
                TagValue::U16(l) => b.exif_capture_info.composite_image matches Some(x) && CompositeImage::decodes(l@, x),
                _ => b.exif_capture_info.composite_image == a.exif_capture_info.composite_image,
            },
            Field::CompositeImageCount => match v {
                TagValue::U16(l) => if l@.len() >= 1 {
                    b.exif_capture_info.composite_image_count matches Some(x) && x@ == padded(l@, 2)
                } else {
                    b.exif_capture_info.composite_image_count == a.exif_capture_info.composite_image_count
                },
                _ => b.exif_capture_info.composite_image_count == a.exif_capture_info.composite_image_count,
            },
            Field::CompositeImageExposureTimes => match v {
                TagValue::Undefined(l) => b.exif_capture_info.composite_image_exposure_times matches Some(x) && x@ == l@,
                _ => b.exif_capture_info.composite_image_exposure_times == a.exif_capture_info.composite_image_exposure_times,
            },
            Field::GPSLatitudeRef => match v {
                TagValue::Ascii(s) => b.gps_info.gps_latitude_ref == Some(s@ == "N"@ || s@ == "E"@),
                _ => b.gps_info.gps_latitude_ref == a.gps_info.gps_latitude_ref,
            },
            Field::GPSLatitude => match v {
                TagValue::URational(l) => if DMS::readable(l@) {
                    &&& b.gps_info.gps_latitude matches Some(d) && DMS::decodes(l@, d)
                    &&& seeded(a.gps_info.gps_latitude_ref, b.gps_info.gps_latitude_ref, true)
                } else {
                    &&& b.gps_info.gps_latitude == a.gps_info.gps_latitude
                    &&& b.gps_info.gps_latitude_ref == a.gps_info.gps_latitude_ref
                },
                _ => {
                    &&& b.gps_info.gps_latitude == a.gps_info.gps_latitude
                    &&& b.gps_info.gps_latitude_ref == a.gps_info.gps_latitude_ref
                },
            },
            Field::GPSLongitudeRef => match v {
                TagValue::Ascii(s) => b.gps_info.gps_longitude_ref == Some(s@ == "N"@ || s@ == "E"@),
                _ => b.gps_info.gps_longitude_ref == a.gps_info.gps_longitude_ref,
            },
            Field::GPSLongitude => match v {
                TagValue::URational(l) => if DMS::readable(l@) {
                    &&& b.gps_info.gps_longitude matches Some(d) && DMS::decodes(l@, d)
                    &&& seeded(a.gps_info.gps_longitude_ref, b.gps_info.gps_longitude_ref, true)
                } else {
                    &&& b.gps_info.gps_longitude == a.gps_info.gps_longitude
                    &&& b.gps_info.gps_longitude_ref == a.gps_info.gps_longitude_ref
                },
                _ => {
                    &&& b.gps_info.gps_longitude == a.gps_info.gps_longitude
                    &&& b.gps_info.gps_longitude_ref == a.gps_info.gps_longitude_ref
                },
            },
            Field::GPSMapDatum => match v {
                TagValue::Ascii(s) => opt_text(b.gps_info.gps_map_datum, s@),
                _ => b.gps_info.gps_map_datum == a.gps_info.gps_map_datum,
            },
            Field::GPSAltitudeRef => match v {
                TagValue::U8(l) => b.gps_info.gps_altitude_ref matches Some(x) && GPSAltitudeRef::decodes(l@.map_values(|c: u8| c as u16), x),
                _ => b.gps_info.gps_altitude_ref == a.gps_info.gps_altitude_ref,
            },
            Field::GPSAltitude => match v {
                TagValue::URational(l) => if l@.len() >= 1 {
                    &&& b.gps_info.gps_altitude == Some(F64::from_ur64_spec(l@[0]))
                    &&& seeded(a.gps_info.gps_altitude_ref, b.gps_info.gps_altitude_ref, GPSAltitudeRef::AboveSeaLevel)
                } else {
                    &&& b.gps_info.gps_altitude == a.gps_info.gps_altitude
                    &&& b.gps_info.gps_altitude_ref == a.gps_info.gps_altitude_ref
                },
                _ => {
                    &&& b.gps_info.gps_altitude == a.gps_info.gps_altitude
                    &&& b.gps_info.gps_altitude_ref == a.gps_info.gps_altitude_ref
                },
            },
            Field::GPSSatellites => match v {
                TagValue::Ascii(s) => opt_text(b.gps_info.gps_satellites, s@),
                _ => b.gps_info.gps_satellites == a.gps_info.gps_satellites,
            },
            Field::GPSStatus => match v {
                TagValue::Ascii(s) => b.gps_info.gps_status == Some(GPSStatus::decode(s@)),
                _ => b.gps_info.gps_status == a.gps_info.gps_status,
            },
            Field::GPSMeasureMode => match v {
                TagValue::Ascii(s) => b.gps_info.gps_measure_mode == Some(GPSMeasureMode::decode(s@)),
                _ => b.gps_info.gps_measure_mode == a.gps_info.gps_measure_mode,
            },
            Field::GPSDOP => match v {
                TagValue::URational(l) => if l@.len() >= 1 {
                    b.gps_info.gps_dop == Some(F64::from_ur64_spec(l@[0]))
                } else {
                    b.gps_info.gps_dop == a.gps_info.gps_dop
                },
                _ => b.gps_info.gps_dop == a.gps_info.gps_dop,
            },
            Field::GPSSpeedRef => match v {
                TagValue::Ascii(s) => b.gps_info.gps_speed_ref == Some(GPSSpeedRef::decode(s@)),
                _ => b.gps_info.gps_speed_ref == a.gps_info.gps_speed_ref,
            },
            Field::GPSSpeed => match v {
                TagValue::URational(l) => if l@.len() >= 1 {
                    &&& b.gps_info.gps_speed == Some(F64::from_ur64_spec(l@[0]))
                    &&& seeded(a.gps_info.gps_speed_ref, b.gps_info.gps_speed_ref, GPSSpeedRef::km_h)
                } else {
                    &&& b.gps_info.gps_speed == a.gps_info.gps_speed
                    &&& b.gps_info.gps_speed_ref == a.gps_info.gps_speed_ref
                },
                _ => {
                    &&& b.gps_info.gps_speed == a.gps_info.gps_speed
                    &&& b.gps_info.gps_speed_ref == a.gps_info.gps_speed_ref
                },
            },
            Field::GPSTrackRef => match v {
                TagValue::Ascii(s) => b.gps_info.gps_track_ref == Some(NorthRef::decode(s@)),
                _ => b.gps_info.gps_track_ref == a.gps_info.gps_track_ref,
            },
            Field::GPSTrack => match v {
                TagValue::URational(l) => if l@.len() >= 1 {
                    &&& b.gps_info.gps_track == Some(F64::from_ur64_spec(l@[0]))
                    &&& seeded(a.gps_info.gps_track_ref, b.gps_info.gps_track_ref, NorthRef::MagneticNorth)
                } else {
                    &&& b.gps_info.gps_track == a.gps_info.gps_track
                    &&& b.gps_info.gps_track_ref == a.gps_info.gps_track_ref
                },
                _ => {
                    &&& b.gps_info.gps_track == a.gps_info.gps_track
                    &&& b.gps_info.gps_track_ref == a.gps_info.gps_track_ref
                },
            },
            Field::GPSImgDirectionRef => match v {
                TagValue::Ascii(s) => b.gps_info.gps_img_direction_ref == Some(NorthRef::decode(s@)),
                _ => b.gps_info.gps_img_direction_ref == a.gps_info.gps_img_direction_ref,
            },
            Field::GPSImgDirection => match v {
                TagValue::URational(l) => if l@.len() >= 1 {
                    &&& b.gps_info.gps_img_direction == Some(F64::from_ur64_spec(l@[0]))
                    &&& seeded(a.gps_info.gps_img_direction_ref, b.gps_info.gps_img_direction_ref, NorthRef::MagneticNorth)
                } else {
                    &&& b.gps_info.gps_img_direction == a.gps_info.gps_img_direction
                    &&& b.gps_info.gps_img_direction_ref == a.gps_info.gps_img_direction_ref
                },
                _ => {
                    &&& b.gps_info.gps_img_direction == a.gps_info.gps_img_direction
                    &&& b.gps_info.gps_img_direction_ref == a.gps_info.gps_img_direction_ref
                },
            },
            Field::GPSDestLatitudeRef => match v {
                TagValue::Ascii(s) => b.gps_info.gps_dest_latitude_ref == Some(s@ == "N"@ || s@ == "E"@),
                _ => b.gps_info.gps_dest_latitude_ref == a.gps_info.gps_dest_latitude_ref,
            },
            Field::GPSDestLatitude => match v {
                TagValue::URational(l) => if DMS::readable(l@) {
                    &&& b.gps_info.gps_dest_latitude matches Some(d) && DMS::decodes(l@, d)
                    &&& seeded(a.gps_info.gps_dest_latitude_ref, b.gps_info.gps_dest_latitude_ref, true)
                } else {
                    &&& b.gps_info.gps_dest_latitude == a.gps_info.gps_dest_latitude
                    &&& b.gps_info.gps_dest_latitude_ref == a.gps_info.gps_dest_latitude_ref
                },
                _ => {
                    &&& b.gps_info.gps_dest_latitude == a.gps_info.gps_dest_latitude
                    &&& b.gps_info.gps_dest_latitude_ref == a.gps_info.gps_dest_latitude_ref
                },
            },
            Field::GPSDestLongitudeRef => match v {
                TagValue::Ascii(s) => b.gps_info.gps_dest_longitude_ref == Some(s@ == "N"@ || s@ == "E"@),
                _ => b.gps_info.gps_dest_longitude_ref == a.gps_info.gps_dest_longitude_ref,
            },
            Field::GPSDestLongitude => match v {
                TagValue::URational(l) => if DMS::readable(l@) {
                    &&& b.gps_info.gps_dest_longitude matches Some(d) && DMS::decodes(l@, d)
                    &&& seeded(a.gps_info.gps_dest_longitude_ref, b.gps_info.gps_dest_longitude_ref, true)
                } else {
                    &&& b.gps_info.gps_dest_longitude == a.gps_info.gps_dest_longitude
                    &&& b.gps_info.gps_dest_longitude_ref == a.gps_info.gps_dest_longitude_ref
                },
                _ => {
                    &&& b.gps_info.gps_dest_longitude == a.gps_info.gps_dest_longitude
                    &&& b.gps_info.gps_dest_longitude_ref == a.gps_info.gps_dest_longitude_ref
                },
            },
            Field::GPSDestBearingRef => match v {
                TagValue::Ascii(s) => b.gps_info.gps_dest_bearing_ref == Some(NorthRef::decode(s@)),
                _ => b.gps_info.gps_dest_bearing_ref == a.gps_info.gps_dest_bearing_ref,
            },
            Field::GPSDestBearing => match v {
                TagValue::URational(l) => if l@.len() >= 1 {
                    &&& b.gps_info.gps_dest_bearing == Some(F64::from_ur64_spec(l@[0]))
                    &&& seeded(a.gps_info.gps_dest_bearing_ref, b.gps_info.gps_dest_bearing_ref, NorthRef::MagneticNorth)
                } else {
                    &&& b.gps_info.gps_dest_bearing == a.gps_info.gps_dest_bearing
                    &&& b.gps_info.gps_dest_bearing_ref == a.gps_info.gps_dest_bearing_ref
                },
                _ => {
                    &&& b.gps_info.gps_dest_bearing == a.gps_info.gps_dest_bearing
                    &&& b.gps_info.gps_dest_bearing_ref == a.gps_info.gps_dest_bearing_ref
                },
            },
            Field::GPSDestDistanceRef => match v {
                TagValue::Ascii(s) => b.gps_info.gps_dest_distance_ref == Some(GPSDestDistanceRef::decode(s@)),
                _ => b.gps_info.gps_dest_distance_ref == a.gps_info.gps_dest_distance_ref,
            },
            Field::GPSDestDistance => match v {
                TagValue::URational(l) => if l@.len() >= 1 {
                    &&& b.gps_info.gps_dest_distance == Some(F64::from_ur64_spec(l@[0]))
                    &&& seeded(a.gps_info.gps_dest_distance_ref, b.gps_info.gps_dest_distance_ref, GPSDestDistanceRef::Kilimeters)
                } else {
                    &&& b.gps_info.gps_dest_distance == a.gps_info.gps_dest_distance
                    &&& b.gps_info.gps_dest_distance_ref == a.gps_info.gps_dest_distance_ref
                },
                _ => {
                    &&& b.gps_info.gps_dest_distance == a.gps_info.gps_dest_distance
                    &&& b.gps_info.gps_dest_distance_ref == a.gps_info.gps_dest_distance_ref
                },
            },
            Field::GPSProcessingMethod => match v {
                TagValue::Undefined(l) => b.gps_info.gps_processing_method matches Some(x) && x@ == l@,
                _ => b.gps_info.gps_processing_method == a.gps_info.gps_processing_method,
            },
            Field::GPSAreaInformation => match v {
                TagValue::Undefined(l) => b.gps_info.gps_area_information matches Some(x) && x@ == l@,
                _ => b.gps_info.gps_area_information == a.gps_info.gps_area_information,
            },
            Field::GPSDateStamp => match v {
                TagValue::Ascii(s) => if exif_date(s@) is Some {
                    &&& b.gps_info.gps_date_stamp matches Some(d) && exif_date(s@) == Some((d.year as int, d.month as int, d.day as int))
                    &&& seeded(a.gps_info.gps_time_stamp, b.gps_info.gps_time_stamp, now.time())
                } else {
                    &&& b.gps_info.gps_date_stamp == a.gps_info.gps_date_stamp
                    &&& b.gps_info.gps_time_stamp == a.gps_info.gps_time_stamp
                },
                _ => {
                    &&& b.gps_info.gps_date_stamp == a.gps_info.gps_date_stamp
                    &&& b.gps_info.gps_time_stamp == a.gps_info.gps_time_stamp
                },
            },
            Field::GPSTimeStamp => match v {
                TagValue::URational(l) => if time_of(l@) is Some {
                    &&& b.gps_info.gps_time_stamp == time_of(l@)
                    &&& seeded(a.gps_info.gps_date_stamp, b.gps_info.gps_date_stamp, now.date())
                } else {
                    &&& b.gps_info.gps_time_stamp == a.gps_info.gps_time_stamp
                    &&& b.gps_info.gps_date_stamp == a.gps_info.gps_date_stamp
                },
                _ => {
                    &&& b.gps_info.gps_time_stamp == a.gps_info.gps_time_stamp
                    &&& b.gps_info.gps_date_stamp == a.gps_info.gps_date_stamp
                },
            },
            Field::GPSDifferential => match v {
                TagValue::U16(l) => b.gps_info.gps_differential matches Some(x) && GPSDifferential::decodes(l@, x),
                _ => b.gps_info.gps_differential == a.gps_info.gps_differential,
            },
            Field::GPSHPositioningError => match v {
                TagValue::URational(l) => if l@.len() >= 1 {
                    b.gps_info.gps_h_positioning_error == Some(F64::from_ur64_spec(l@[0]))
                } else {
                    b.gps_info.gps_h_positioning_error == a.gps_info.gps_h_positioning_error
                },
                _ => b.gps_info.gps_h_positioning_error == a.gps_info.gps_h_positioning_error,
            },
            Field::GPSVersionID => match v {
                TagValue::U8(l) => if l@.len() >= 1 {
                    b.gps_info.gps_version_id matches Some(x) && x@ == padded(l@, 4)
                } else {
                    b.gps_info.gps_version_id == a.gps_info.gps_version_id
                },
                _ => b.gps_info.gps_version_id == a.gps_info.gps_version_id,
            },
            Field::GPSInfo => match v {
                TagValue::U32(l) => if l@.len() >= 1 {
                    b.gps_info.gps_info == Some(l@[0])
                } else {
                    b.gps_info.gps_info == a.gps_info.gps_info
                },
                _ => b.gps_info.gps_info == a.gps_info.gps_info,
            },
            Field::InteropOffset => match v {
                TagValue::U32(l) => if l@.len() >= 1 {
                    b.interop_info.interop_offset == Some(l@[0])
                } else {
                    b.interop_info.interop_offset == a.interop_info.interop_offset
                },
                _ => b.interop_info.interop_offset == a.interop_info.interop_offset,
            },
            Field::InteroperabilityIndex => match v {
                TagValue::Ascii(s) => b.interop_info.interoperability_index == Some(InteroperabilityIndex::decode(s@)),
                _ => b.interop_info.interoperability_index == a.interop_info.interoperability_index,
            },
            Field::InteroperabilityVersion => match v {
                TagValue::Undefined(l) => if l@.len() >= 1 {
                    b.interop_info.interoperability_version matches Some(x) && x@ == padded(l@, 4)
                } else {
                    b.interop_info.interoperability_version == a.interop_info.interoperability_version
                },
                _ => b.interop_info.interoperability_version == a.interop_info.interoperability_version,
            },
            Field::ThumbnailOffset => match v {
                TagValue::U32(l) => b.thumbnail_info.thumbnail_offset matches Some(x) && x@ == l@,
                _ => b.thumbnail_info.thumbnail_offset == a.thumbnail_info.thumbnail_offset,
            },
            Field::ThumbnailLength => match v {
                TagValue::U32(l) => if l@.len() >= 1 {
                    b.thumbnail_info.thumbnail_length == Some(l@[0])
                } else {
                    b.thumbnail_info.thumbnail_length == a.thumbnail_info.thumbnail_length
                },
                _ => b.thumbnail_info.thumbnail_length == a.thumbnail_info.thumbnail_length,
            },
            Field::ImageDescription => match v {
                TagValue::Ascii(s) => opt_text(b.user_info.image_description, s@),
                _ => b.user_info.image_description == a.user_info.image_description,
            },
            Field::Artist => match v {
                TagValue::Ascii(s) => opt_text(b.user_info.artist, s@),
                _ => b.user_info.artist == a.user_info.artist,
            },
            Field::Copyright => match v {
                TagValue::Ascii(s) => opt_text(b.user_info.copyright, s@),
                _ => b.user_info.copyright == a.user_info.copyright,
            },
            Field::UserComment => match v {
                TagValue::Undefined(l) => if l@.len() >= 8 {
                    b.user_info.user_comment matches Some(c) && UserComment::reads(l@, c)
                } else {
                    b.user_info.user_comment == a.user_info.user_comment
                },
                _ => b.user_info.user_comment == a.user_info.user_comment,
            },
            Field::MakerNote => match v {
                TagValue::Undefined(l) => opt_text(b.uneditable.maker_note, list_dec(ints_u8(l@))),
                _ => b.uneditable.maker_note == a.uneditable.maker_note,
            },
        }
    }

    /// Decodes payload `v` into field `f`, seeding its companion where the schema says so.
    fn apply_field(&mut self, f: Field, v: &TagValue, now: &DateTime)
        ensures
            Self::field_applied(f, *v, *old(self), *final(self), *now),
            Self::unchanged_except(*old(self), *final(self), Self::owned(f)),
            final(self).metadata == old(self).metadata,
            final(self).uneditable.unknown_dict == old(self).uneditable.unknown_dict,
    {
        match f {
            Field::Make => {
                if let TagValue::Ascii(s) = v {
                    self.basic_image_info.make = Some(s.clone());
                }
            },
            Field::Model => {
                if let TagValue::Ascii(s) = v {
                    self.basic_image_info.model = Some(s.clone());
                }
            },
            Field::Software => {
                if let TagValue::Ascii(s) = v {
                    self.basic_image_info.software = Some(s.clone());
                }
            },
            Field::ImageWidth => {
                if let TagValue::U32(l) = v {
                    if l.len() >= 1 {
                        self.basic_image_info.image_width = Some(l[0]);
                    }
                }
            },
            Field::ImageHeight => {
                if let TagValue::U32(l) = v {
                    if l.len() >= 1 {
                        self.basic_image_info.image_height = Some(l[0]);
                    }
                }
            },
            Field::ExifImageWidth => {
                match v {
                    TagValue::U16(l) => {
                        if l.len() >= 1 {
                            self.basic_image_info.exif_image_width = Some(l[0]);
                        }
                    },
                    TagValue::U32(l) => {
                        if l.len() >= 1 && l[0] <= u16::MAX as u32 {
                            self.basic_image_info.exif_image_width = Some(l[0] as u16);
                        }
                    },
                    _ => {},
                }
            },
            Field::ExifImageHeight => {
                match v {
                    TagValue::U16(l) => {
                        if l.len() >= 1 {
                            self.basic_image_info.exif_image_height = Some(l[0]);
                        }
                    },
                    TagValue::U32(l) => {
                        if l.len() >= 1 && l[0] <= u16::MAX as u32 {
                            self.basic_image_info.exif_image_height = Some(l[0] as u16);
                        }
                    },
                    _ => {},
                }
            },
            Field::XResolution => {
                if let TagValue::URational(l) = v {
                    if l.len() >= 1 {
                        self.basic_image_info.x_resolution = Some(F64::from_ur64(&l[0]));
                    }
                }
            },
            Field::YResolution => {
                if let TagValue::URational(l) = v {
                    if l.len() >= 1 {
                        self.basic_image_info.y_resolution = Some(F64::from_ur64(&l[0]));
                    }
                }
            },
            Field::ResolutionUnit => {
                if let TagValue::U16(l) = v {
                    self.basic_image_info.resolution_unit = Some(ResolutionUnit::from_vec(l.as_slice()));
                }
            },
            Field::Compression => {
                if let TagValue::U16(l) = v {
                    self.basic_image_info.compression = Some(Compression::from_vec(l.as_slice()));
                }
            },
            Field::PhotometricInterpretation => {
                if let TagValue::U16(l) = v {
                    self.basic_image_info.photometric_interpretation = Some(PhotometricInterpretation::from_vec(l.as_slice()));
                }
            },
            Field::ColorSpace => {
                if let TagValue::U16(l) = v {
                    self.basic_image_info.color_space = Some(ColorSpace::from_vec(l.as_slice()));
                }
            },
            Field::BitsPerSample => {
                if let TagValue::U16(l) = v {
                    self.basic_image_info.bits_per_sample = Some(crate::tag::copy_vec(l));
                }
            },
            Field::SamplesPerPixel => {
                if let TagValue::U16(l) = v {
                    if l.len() >= 1 {
                        self.basic_image_info.samples_per_pixel = Some(l[0]);
                    }
                }
            },
            Field::PlanarConfiguration => {
                if let TagValue::U16(l) = v {
                    self.basic_image_info.planar_configuration = Some(PlanarConfiguration::from_vec(l.as_slice()));
                }
            },
            Field::YCbCrSubSampling => {
                if let TagValue::U16(l) = v {
                    self.basic_image_info.ycbcr_sub_sampling = Some(YCbCrSubSampling::from_vec(l.as_slice()));
                }
            },
            Field::YCbCrPositioning => {
                if let TagValue::U16(l) = v {
                    self.basic_image_info.ycbcr_positioning = Some(YCbCrPositioning::from_vec(l.as_slice()));
                }
            },
            Field::YCbCrCoefficients => {
                if let TagValue::URational(l) = v {
                    if l.len() >= 1 {
                        self.basic_image_info.ycbcr_coefficients = Some(pad_rationals(l, 3));
                    }
                }
            },
            Field::TransferFunction => {
                if let TagValue::U16(l) = v {
                    if l.len() >= 1 {
                        self.basic_image_info.transfer_function = Some(pad_first(l, 768));
                    }
                }
            },
            Field::WhitePoint => {
                if let TagValue::URational(l) = v {
                    if l.len() >= 1 {
                        self.basic_image_info.white_point = Some(pad_rationals(l, 2));
                    }
                }
            },
            Field::PrimaryChromaticities => {
                if let TagValue::URational(l) = v {
                    if l.len() >= 1 {
                        self.basic_image_info.primary_chromaticities = Some(pad_rationals(l, 6));
                    }
                }
            },
            Field::ReferenceBlackWhite => {
                if let TagValue::URational(l) = v {
                    if l.len() >= 1 {
                        self.basic_image_info.reference_black_white = Some(pad_rationals(l, 6));
                    }
                }
            },
            Field::ColorMap => {
                if let TagValue::U16(l) = v {
                    self.basic_image_info.color_map = Some(crate::tag::copy_vec(l));
                }
            },
            Field::StripOffsets => {
                if let TagValue::U32(l) = v {
                    self.basic_image_info.strip_offsets = Some(crate::tag::copy_vec(l));
                }
            },
            Field::StripByteCounts => {
                if let TagValue::U32(l) = v {
                    self.basic_image_info.strip_byte_counts = Some(crate::tag::copy_vec(l));
                }
            },
            Field::RowsPerStrip => {
                if let TagValue::U32(l) = v {
                    if l.len() >= 1 {
                        self.basic_image_info.rows_per_strip = Some(l[0]);
                    }
                }
            },
            Field::Orientation => {
                if let TagValue::U16(l) = v {
                    self.basic_image_info.orientation = Some(Orientation::from_vec(l.as_slice()));
                }
            },
            Field::CellWidth => {
                if let TagValue::U16(l) = v {
                    if l.len() >= 1 {
                        self.basic_image_info.cell_width = Some(l[0]);
                    }
                }
            },
            Field::CellHeight => {
                if let TagValue::U16(l) = v {
                    if l.len() >= 1 {
                        self.basic_image_info.cell_height = Some(l[0]);
                    }
                }
            },
            Field::SerialNumber => {
                if let TagValue::Ascii(s) = v {
                    self.basic_image_info.serial_number = Some(s.clone());
                }
            },
            Field::OwnerName => {
                if let TagValue::Ascii(s) = v {
                    self.basic_image_info.owner_name = Some(s.clone());
                }
            },
            Field::LensInfo => {
                if let TagValue::URational(l) = v {
                    if l.len() >= 1 {
                        self.basic_image_info.lens_info = Some(pad_rationals(l, 4));
                    }
                }
            },
            Field::DateTimeOriginal => {
                if let TagValue::Ascii(s) = v {
                    if let Some(d) = parse_datetime(s.as_str()) {
                        self.exif_capture_info.date_time_original = Some(d);
                        if self.exif_capture_info.sub_sec_time_original.is_none() {
                            self.exif_capture_info.sub_sec_time_original = Some(0);
                        }
                    }
                }
            },
            Field::OffsetTimeOriginal => {
                if let TagValue::Ascii(s) = v {
                    let q = TimeOffset::from_str(s.as_str());
                    if q.is_some() {
                        self.exif_capture_info.offset_time_original = q;
                    }
                }
            },
            Field::SubSecTimeOriginal => {
                if let TagValue::Ascii(s) = v {
                    let q = parse_u16(s.as_str());
                    if q.is_some() {
                        self.exif_capture_info.sub_sec_time_original = q;
                    }
                }
            },
            Field::CreateDate => {
                if let TagValue::Ascii(s) = v {
                    if let Some(d) = parse_datetime(s.as_str()) {
                        self.exif_capture_info.create_date = Some(d);
                        if self.exif_capture_info.sub_sec_time_digitized.is_none() {
                            self.exif_capture_info.sub_sec_time_digitized = Some(0);
                        }
                    }
                }
            },
            Field::OffsetTimeDigitized => {
                if let TagValue::Ascii(s) = v {
                    let q = TimeOffset::from_str(s.as_str());
                    if q.is_some() {
                        self.exif_capture_info.offset_time_digitized = q;
                    }
                }
            },
            Field::SubSecTimeDigitized => {
                if let TagValue::Ascii(s) = v {
                    let q = parse_u16(s.as_str());
                    if q.is_some() {
                        self.exif_capture_info.sub_sec_time_digitized = q;
                    }
                }
            },
            Field::ModifyDate => {
                if let TagValue::Ascii(s) = v {
                    if let Some(d) = parse_datetime(s.as_str()) {
                        self.exif_capture_info.modify_date = Some(d);
                        if self.exif_capture_info.sub_sec_time.is_none() {
                            self.exif_capture_info.sub_sec_time = Some(0);
                        }
                    }
                }
            },
            Field::OffsetTime => {
                if let TagValue::Ascii(s) = v {
                    let q = TimeOffset::from_str(s.as_str());
                    if q.is_some() {
                        self.exif_capture_info.offset_time = q;
                    }
                }
            },
            Field::SubSecTime => {
                if let TagValue::Ascii(s) = v {
                    let q = parse_u16(s.as_str());
                    if q.is_some() {
                        self.exif_capture_info.sub_sec_time = q;
                    }
                }
            },
            Field::LensMake => {
                if let TagValue::Ascii(s) = v {
                    self.exif_capture_info.lens_make = Some(s.clone());
                }
            },
            Field::LensModel => {
                if let TagValue::Ascii(s) = v {
                    self.exif_capture_info.lens_model = Some(s.clone());
                }
            },
            Field::LensSerialNumber => {
                if let TagValue::Ascii(s) = v {
                    self.exif_capture_info.lens_serial_number = Some(s.clone());
                }
            },
            Field::MaxApertureValue => {
                if let TagValue::URational(l) = v {
                    if l.len() >= 1 {
                        self.exif_capture_info.max_aperture_value = Some(F64::from_ur64(&l[0]));
                    }
                }
            },
            Field::ExposureProgram => {
                if let TagValue::U16(l) = v {
                    self.exif_capture_info.exposure_program = Some(ExposureProgram::from_vec(l.as_slice()));
                }
            },
            Field::ExposureMode => {
                if let TagValue::U16(l) = v {
                    self.exif_capture_info.exposure_mode = Some(ExposureMode::from_vec(l.as_slice()));
                }
            },
            Field::ExposureTime => {
                if let TagValue::URational(l) = v {
                    if l.len() >= 1 {
                        self.exif_capture_info.exposure_time = Some(F64::from_ur64(&l[0]));
                    }
                }
            },
            Field::ShutterSpeedValue => {
                if let TagValue::IRational(l) = v {
                    if l.len() >= 1 {
                        self.exif_capture_info.shutter_speed_value = Some(F64::from_ir64(&l[0]));
                    }
                }
            },
            Field::FNumber => {
                if let TagValue::URational(l) = v {
                    if l.len() >= 1 {
                        self.exif_capture_info.f_number = Some(F64::from_ur64(&l[0]));
                    }
                }
            },
            Field::ApertureValue => {
                if let TagValue::URational(l) = v {
                    if l.len() >= 1 {
                        self.exif_capture_info.aperture_value = Some(F64::from_ur64(&l[0]));
                    }
                }
            },
            Field::ExposureCompensation => {
                if let TagValue::IRational(l) = v {
                    if l.len() >= 1 {
                        self.exif_capture_info.exposure_compensation = Some(F64::from_ir64(&l[0]));
                    }
                }
            },
            Field::BrightnessValue => {
                if let TagValue::IRational(l) = v {
                    if l.len() >= 1 {
                        self.exif_capture_info.brightness_value = Some(F64::from_ir64(&l[0]));
                    }
                }
            },
            Field::MeteringMode => {
                if let TagValue::U16(l) = v {
                    self.exif_capture_info.metering_mode = Some(MeteringMode::from_vec(l.as_slice()));
                }
            },
            Field::LightSource => {
                if let TagValue::U16(l) = v {
                    self.exif_capture_info.light_source = Some(LightSource::from_vec(l.as_slice()));
                }
            },
            Field::Flash => {
                if let TagValue::U16(l) = v {
                    self.exif_capture_info.flash = Some(Flash::from_vec(l.as_slice()));
                }
            },
            Field::FocalLength => {
                if let TagValue::URational(l) = v {
                    if l.len() >= 1 {
                        self.exif_capture_info.focal_length = Some(F64::from_ur64(&l[0]));
                    }
                }
            },
            Field::SubjectArea => {
                if let TagValue::U16(l) = v {
                    self.exif_capture_info.subject_area = Some(crate::tag::copy_vec(l));
                }
            },
            Field::SubjectLocation => {
                if let TagValue::U16(l) = v {
                    if l.len() >= 1 {
                        self.exif_capture_info.subject_location = Some(pad_first(l, 2));
                    }
                }
            },
            Field::SensitivityType => {
                if let TagValue::U16(l) = v {
                    self.exif_capture_info.sensitivity_type = Some(SensitivityType::from_vec(l.as_slice()));
                }
            },
            Field::ISO => {
                if let TagValue::U16(l) = v {
                    self.exif_capture_info.iso = Some(crate::tag::copy_vec(l));
                }
            },
            Field::ISOSpeed => {
                if let TagValue::U32(l) = v {
                    if l.len() >= 1 {
                        self.exif_capture_info.iso_speed = Some(l[0]);
                    }
                }
            },
            Field::StandardOutputSensitivity => {
                if let TagValue::U32(l) = v {
                    if l.len() >= 1 {
                        self.exif_capture_info.standard_output_sensitivity = Some(l[0]);
                    }
                }
            },
            Field::RecommendedExposureIndex => {
                if let TagValue::U32(l) = v {
                    if l.len() >= 1 {
                        self.exif_capture_info.recommended_exposure_index = Some(l[0]);
                    }
                }
            },
            Field::ExposureIndex => {
                if let TagValue::URational(l) = v {
                    if l.len() >= 1 {
                        self.exif_capture_info.exposure_index = Some(F64::from_ur64(&l[0]));
                    }
                }
            },
            Field::ISOSpeedLatitudeyyy => {
                if let TagValue::U32(l) = v {
                    if l.len() >= 1 {
                        self.exif_capture_info.iso_speed_latitude_yyy = Some(l[0]);
                    }
                }
            },
            Field::ISOSpeedLatitudezzz => {
                if let TagValue::U32(l) = v {
                    if l.len() >= 1 {
                        self.exif_capture_info.iso_speed_latitude_zzz = Some(l[0]);
                    }
                }
            },
            Field::ExifVersion => {
                if let TagValue::Undefined(l) = v {
                    let t = crate::user::utf8_text(l.as_slice());
                    if t.is_some() {
                        self.exif_capture_info.exif_version = t;
                    }
                }
            },
            Field::FlashpixVersion => {
                if let TagValue::Undefined(l) = v {
                    let t = crate::user::utf8_text(l.as_slice());
                    if t.is_some() {
                        self.exif_capture_info.flashpix_version = t;
                    }
                }
            },
            Field::ExifOffset => {
                if let TagValue::U32(l) = v {
                    if l.len() >= 1 {
                        self.exif_capture_info.exif_offset = Some(l[0]);
                    }
                }
            },
            Field::ComponentsConfiguration => {
                if let TagValue::Undefined(l) = v {
                    let q = crate::pattern::load_components_configuration(l.as_slice());
                    if q.is_some() {
                        self.exif_capture_info.components_configuration = q;
                    }
                }
            },
            Field::CompressedBitsPerPixel => {
                if let TagValue::URational(l) = v {
                    if l.len() >= 1 {
                        self.exif_capture_info.compressed_bits_per_pixel = Some(F64::from_ur64(&l[0]));
                    }
                }
            },
            Field::SensingMethod => {
                if let TagValue::U16(l) = v {
                    self.exif_capture_info.sensing_method = Some(SensingMethod::from_vec(l.as_slice()));
                }
            },
            Field::FileSource => {
                if let TagValue::Undefined(l) = v {
                    self.exif_capture_info.file_source = Some(FileSource::from_u8_vec(l.as_slice()));
                }
            },
            Field::SceneType => {
                if let TagValue::Undefined(l) = v {
                    self.exif_capture_info.scene_type = Some(SceneType::from_u8_vec(l.as_slice()));
                }
            },
            Field::CFAPattern => {
                if let TagValue::Undefined(l) = v {
                    let q = CFAPattern::from_vec(l.as_slice());
                    if q.is_some() {
                        self.exif_capture_info.cfa_pattern = q;
                    }
                }
            },
            Field::AmbientTemperature => {
                if let TagValue::IRational(l) = v {
                    if l.len() >= 1 {
                        self.exif_capture_info.ambient_temperature = Some(F64::from_ir64(&l[0]));
                    }
                }
            },
            Field::Humidity => {
                if let TagValue::URational(l) = v {
                    if l.len() >= 1 {
                        self.exif_capture_info.humidity = Some(F64::from_ur64(&l[0]));
                    }
                }
            },
            Field::Pressure => {
                if let TagValue::URational(l) = v {
                    if l.len() >= 1 {
                        self.exif_capture_info.pressure = Some(F64::from_ur64(&l[0]));
                    }
                }
            },
            Field::WaterDepth => {
                if let TagValue::IRational(l) = v {
                    if l.len() >= 1 {
                        self.exif_capture_info.water_depth = Some(F64::from_ir64(&l[0]));
                    }
                }
            },
            Field::Acceleration => {
                if let TagValue::URational(l) = v {
                    if l.len() >= 1 {
                        self.exif_capture_info.acceleration = Some(F64::from_ur64(&l[0]));
                    }
                }
            },
            Field::CameraElevationAngle => {
                if let TagValue::IRational(l) = v {
                    if l.len() >= 1 {
                        self.exif_capture_info.camera_elevation_angle = Some(F64::from_ir64(&l[0]));
                    }
                }
            },
            Field::SpectralSensitivity => {
                if let TagValue::Ascii(s) = v {
                    self.exif_capture_info.spectral_sensitivity = Some(s.clone());
                }
            },
            Field::OECF => {
                if let TagValue::Undefined(l) = v {
                    self.exif_capture_info.oecf = Some(crate::tag::copy_vec(l));
                }
            },
            Field::SubjectDistance => {
                if let TagValue::URational(l) = v {
                    if l.len() >= 1 {
                        self.exif_capture_info.subject_distance = Some(F64::from_ur64(&l[0]));
                    }
                }
            },
            Field::SubjectDistanceRange => {
                if let TagValue::U16(l) = v {
                    if l.len() >= 1 {
                        self.exif_capture_info.subject_distance_range = Some(l[0]);
                    }
                }
            },
            Field::FlashEnergy => {
                if let TagValue::URational(l) = v {
                    if l.len() >= 1 {
                        self.exif_capture_info.flash_energy = Some(F64::from_ur64(&l[0]));
                    }
                }
            },
            Field::SpatialFrequencyResponse => {
                if let TagValue::U16(l) = v {
                    self.exif_capture_info.spatial_frequency_response = Some(crate::tag::copy_vec(l));
                }
            },
            Field::FocalPlaneXResolution => {
                if let TagValue::URational(l) = v {
                    if l.len() >= 1 {
                        self.exif_capture_info.focal_plane_x_resolution = Some(F64::from_ur64(&l[0]));
                    }
                }
            },
            Field::FocalPlaneYResolution => {
                if let TagValue::URational(l) = v {
                    if l.len() >= 1 {
                        self.exif_capture_info.focal_plane_y_resolution = Some(F64::from_ur64(&l[0]));
                    }
                }
            },
            Field::FocalPlaneResolutionUnit => {
                if let TagValue::U16(l) = v {
                    self.exif_capture_info.focal_plane_resolution_unit = Some(FocalPlaneResolutionUnit::from_vec(l.as_slice()));
                }
            },
            Field::WhiteBalance => {
                if let TagValue::U16(l) = v {
                    self.exif_capture_info.white_balance = Some(WhiteBalance::from_vec(l.as_slice()));
                }
            },
            Field::DigitalZoomRatio => {
                if let TagValue::URational(l) = v {
                    if l.len() >= 1 {
                        self.exif_capture_info.digital_zoom_ratio = Some(F64::from_ur64(&l[0]));
                    }
                }
            },
            Field::FocalLengthIn35mmFormat => {
                if let TagValue::U16(l) = v {
                    if l.len() >= 1 {
                        self.exif_capture_info.focal_length_in_35mm_format = Some(l[0]);
                    }
                }
            },
            Field::SceneCaptureType => {
                if let TagValue::U16(l) = v {
                    self.exif_capture_info.scene_capture_type = Some(SceneCaptureType::from_vec(l.as_slice()));
                }
            },
            Field::GainControl => {
                if let TagValue::U16(l) = v {
                    self.exif_capture_info.gain_control = Some(GainControl::from_vec(l.as_slice()));
                }
            },
            Field::Contrast => {
                if let TagValue::U16(l) = v {
                    self.exif_capture_info.contrast = Some(Contrast::from_vec(l.as_slice()));
                }
            },
            Field::Saturation => {
                if let TagValue::U16(l) = v {
                    self.exif_capture_info.saturation = Some(Saturation::from_vec(l.as_slice()));
                }
            },
            Field::Sharpness => {
                if let TagValue::U16(l) = v {
                    self.exif_capture_info.sharpness = Some(Sharpness::from_vec(l.as_slice()));
                }
            },
            Field::CustomRendered => {
                if let TagValue::U16(l) = v {
                    self.exif_capture_info.custom_rendered = Some(CustomRendered::from_vec(l.as_slice()));
                }
            },
            Field::DeviceSettingDescription => {
                if let TagValue::Undefined(l) = v {
                    self.exif_capture_info.device_setting_description = Some(crate::tag::copy_vec(l));
                }
            },
            Field::Gamma => {
                if let TagValue::URational(l) = v {
                    if l.len() >= 1 {
                        self.exif_capture_info.gamma = Some(F64::from_ur64(&l[0]));
                    }
                }
            },
            Field::RelatedSoundFile => {
                if let TagValue::Ascii(s) = v {
                    self.exif_capture_info.related_sound_file = Some(s.clone());
                }
            },
            Field::ImageUniqueID => {
                if let TagValue::Ascii(s) = v {
                    self.exif_capture_info.image_unique_id = Some(s.clone());
                }
            },
            Field::CompositeImage => {
                if let TagValue::U16(l) = v {
                    self.exif_capture_info.composite_image = Some(CompositeImage::from_vec(l.as_slice()));
                }
            },
            Field::CompositeImageCount => {
                if let TagValue::U16(l) = v {
                    if l.len() >= 1 {
                        self.exif_capture_info.composite_image_count = Some(pad_first(l, 2));
                    }
                }
            },
            Field::CompositeImageExposureTimes => {
                if let TagValue::Undefined(l) = v {
                    self.exif_capture_info.composite_image_exposure_times = Some(crate::tag::copy_vec(l));
                }
            },
            Field::GPSLatitudeRef => {
                if let TagValue::Ascii(s) = v {
                    self.gps_info.gps_latitude_ref = gps_ref(s.as_str());
                }
            },
            Field::GPSLatitude => {
                if let TagValue::URational(l) = v {
                    let d = DMS::from_vec(l.as_slice());
                    if d.is_some() {
                        self.gps_info.gps_latitude = d;
                        if self.gps_info.gps_latitude_ref.is_none() {
                            self.gps_info.gps_latitude_ref = Some(true);
                        }
                    }
                }
            },
            Field::GPSLongitudeRef => {
                if let TagValue::Ascii(s) = v {
                    self.gps_info.gps_longitude_ref = gps_ref(s.as_str());
                }
            },
            Field::GPSLongitude => {
                if let TagValue::URational(l) = v {
                    let d = DMS::from_vec(l.as_slice());
                    if d.is_some() {
                        self.gps_info.gps_longitude = d;
                        if self.gps_info.gps_longitude_ref.is_none() {
                            self.gps_info.gps_longitude_ref = Some(true);
                        }
                    }
                }
            },
            Field::GPSMapDatum => {
                if let TagValue::Ascii(s) = v {
                    self.gps_info.gps_map_datum = Some(s.clone());
                }
            },
            Field::GPSAltitudeRef => {
                if let TagValue::U8(l) = v {
                    self.gps_info.gps_altitude_ref = Some(GPSAltitudeRef::from_u8_vec(l.as_slice()));
                }
            },
            Field::GPSAltitude => {
                if let TagValue::URational(l) = v {
                    if l.len() >= 1 {
                        self.gps_info.gps_altitude = Some(F64::from_ur64(&l[0]));
                        if self.gps_info.gps_altitude_ref.is_none() {
                            self.gps_info.gps_altitude_ref = Some(GPSAltitudeRef::AboveSeaLevel);
                        }
                    }
                }
            },
            Field::GPSSatellites => {
                if let TagValue::Ascii(s) = v {
                    self.gps_info.gps_satellites = Some(s.clone());
                }
            },
            Field::GPSStatus => {
                if let TagValue::Ascii(s) = v {
                    self.gps_info.gps_status = Some(GPSStatus::from_str(s.as_str()));
                }
            },
            Field::GPSMeasureMode => {
                if let TagValue::Ascii(s) = v {
                    self.gps_info.gps_measure_mode = Some(GPSMeasureMode::from_str(s.as_str()));
                }
            },
            Field::GPSDOP => {
                if let TagValue::URational(l) = v {
                    if l.len() >= 1 {
                        self.gps_info.gps_dop = Some(F64::from_ur64(&l[0]));
                    }
                }
            },
            Field::GPSSpeedRef => {
                if let TagValue::Ascii(s) = v {
                    self.gps_info.gps_speed_ref = Some(GPSSpeedRef::from_str(s.as_str()));
                }
            },
            Field::GPSSpeed => {
                if let TagValue::URational(l) = v {
                    if l.len() >= 1 {
                        self.gps_info.gps_speed = Some(F64::from_ur64(&l[0]));
                        if self.gps_info.gps_speed_ref.is_none() {
                            self.gps_info.gps_speed_ref = Some(GPSSpeedRef::km_h);
                        }
                    }
                }
            },
            Field::GPSTrackRef => {
                if let TagValue::Ascii(s) = v {
                    self.gps_info.gps_track_ref = Some(NorthRef::from_str(s.as_str()));
                }
            },
            Field::GPSTrack => {
                if let TagValue::URational(l) = v {
                    if l.len() >= 1 {
                        self.gps_info.gps_track = Some(F64::from_ur64(&l[0]));
                        if self.gps_info.gps_track_ref.is_none() {
                            self.gps_info.gps_track_ref = Some(NorthRef::MagneticNorth);
                        }
                    }
                }
            },
            Field::GPSImgDirectionRef => {
                if let TagValue::Ascii(s) = v {
                    self.gps_info.gps_img_direction_ref = Some(NorthRef::from_str(s.as_str()));
                }
            },
            Field::GPSImgDirection => {
                if let TagValue::URational(l) = v {
                    if l.len() >= 1 {
                        self.gps_info.gps_img_direction = Some(F64::from_ur64(&l[0]));
                        if self.gps_info.gps_img_direction_ref.is_none() {
                            self.gps_info.gps_img_direction_ref = Some(NorthRef::MagneticNorth);
                        }
                    }
                }
            },
            Field::GPSDestLatitudeRef => {
                if let TagValue::Ascii(s) = v {
                    self.gps_info.gps_dest_latitude_ref = gps_ref(s.as_str());
                }
            },
            Field::GPSDestLatitude => {
                if let TagValue::URational(l) = v {
                    let d = DMS::from_vec(l.as_slice());
                    if d.is_some() {
                        self.gps_info.gps_dest_latitude = d;
                        if self.gps_info.gps_dest_latitude_ref.is_none() {
                            self.gps_info.gps_dest_latitude_ref = Some(true);
                        }
                    }
                }
            },
            Field::GPSDestLongitudeRef => {
                if let TagValue::Ascii(s) = v {
                    self.gps_info.gps_dest_longitude_ref = gps_ref(s.as_str());
                }
            },
            Field::GPSDestLongitude => {
                if let TagValue::URational(l) = v {
                    let d = DMS::from_vec(l.as_slice());
                    if d.is_some() {
                        self.gps_info.gps_dest_longitude = d;
                        if self.gps_info.gps_dest_longitude_ref.is_none() {
                            self.gps_info.gps_dest_longitude_ref = Some(true);
                        }
                    }
                }
            },
            Field::GPSDestBearingRef => {
                if let TagValue::Ascii(s) = v {
                    self.gps_info.gps_dest_bearing_ref = Some(NorthRef::from_str(s.as_str()));
                }
            },
            Field::GPSDestBearing => {
                if let TagValue::URational(l) = v {
                    if l.len() >= 1 {
                        self.gps_info.gps_dest_bearing = Some(F64::from_ur64(&l[0]));
                        if self.gps_info.gps_dest_bearing_ref.is_none() {
                            self.gps_info.gps_dest_bearing_ref = Some(NorthRef::MagneticNorth);
                        }
                    }
                }
            },
            Field::GPSDestDistanceRef => {
                if let TagValue::Ascii(s) = v {
                    self.gps_info.gps_dest_distance_ref = Some(GPSDestDistanceRef::from_str(s.as_str()));
                }
            },
            Field::GPSDestDistance => {
                if let TagValue::URational(l) = v {
                    if l.len() >= 1 {
                        self.gps_info.gps_dest_distance = Some(F64::from_ur64(&l[0]));
                        if self.gps_info.gps_dest_distance_ref.is_none() {
                            self.gps_info.gps_dest_distance_ref = Some(GPSDestDistanceRef::Kilimeters);
                        }
                    }
                }
            },
            Field::GPSProcessingMethod => {
                if let TagValue::Undefined(l) = v {
                    self.gps_info.gps_processing_method = Some(crate::tag::copy_vec(l));
                }
            },
            Field::GPSAreaInformation => {
                if let TagValue::Undefined(l) = v {
                    self.gps_info.gps_area_information = Some(crate::tag::copy_vec(l));
                }
            },
            Field::GPSDateStamp => {
                if let TagValue::Ascii(s) = v {
                    if let Some(d) = parse_date(s.as_str()) {
                        self.gps_info.gps_date_stamp = Some(d);
                        if self.gps_info.gps_time_stamp.is_none() {
                            self.gps_info.gps_time_stamp = Some(now.time_part());
                        }
                    }
                }
            },
            Field::GPSTimeStamp => {
                if let TagValue::URational(l) = v {
                    let q = parse_time(l.as_slice());
                    if q.is_some() {
                        self.gps_info.gps_time_stamp = q;
                        if self.gps_info.gps_date_stamp.is_none() {
                            self.gps_info.gps_date_stamp = Some(now.date_part());
                        }
                    }
                }
            },
            Field::GPSDifferential => {
                if let TagValue::U16(l) = v {
                    self.gps_info.gps_differential = Some(GPSDifferential::from_vec(l.as_slice()));
                }
            },
            Field::GPSHPositioningError => {
                if let TagValue::URational(l) = v {
                    if l.len() >= 1 {
                        self.gps_info.gps_h_positioning_error = Some(F64::from_ur64(&l[0]));
                    }
                }
            },
            Field::GPSVersionID => {
                if let TagValue::U8(l) = v {
                    if l.len() >= 1 {
                        self.gps_info.gps_version_id = Some(pad_first(l, 4));
                    }
                }
            },
            Field::GPSInfo => {
                if let TagValue::U32(l) = v {
                    if l.len() >= 1 {
                        self.gps_info.gps_info = Some(l[0]);
                    }
                }
            },
            Field::InteropOffset => {
                if let TagValue::U32(l) = v {
                    if l.len() >= 1 {
                        self.interop_info.interop_offset = Some(l[0]);
                    }
                }
            },
            Field::InteroperabilityIndex => {
                if let TagValue::Ascii(s) = v {
                    self.interop_info.interoperability_index = Some(InteroperabilityIndex::from_str(s.as_str()));
                }
            },
            Field::InteroperabilityVersion => {
                if let TagValue::Undefined(l) = v {
                    if l.len() >= 1 {
                        self.interop_info.interoperability_version = Some(pad_first(l, 4));
                    }
                }
            },
            Field::ThumbnailOffset => {
                if let TagValue::U32(l) = v {
                    self.thumbnail_info.thumbnail_offset = Some(crate::tag::copy_vec(l));
                }
            },
            Field::ThumbnailLength => {
                if let TagValue::U32(l) = v {
                    if l.len() >= 1 {
                        self.thumbnail_info.thumbnail_length = Some(l[0]);
                    }
                }
            },
            Field::ImageDescription => {
                if let TagValue::Ascii(s) = v {
                    self.user_info.image_description = Some(s.clone());
                }
            },
            Field::Artist => {
                if let TagValue::Ascii(s) = v {
                    self.user_info.artist = Some(s.clone());
                }
            },
            Field::Copyright => {
                if let TagValue::Ascii(s) = v {
                    self.user_info.copyright = Some(s.clone());
                }
            },
            Field::UserComment => {
                if let TagValue::Undefined(l) = v {
                    let q = UserComment::from_vec(l.as_slice());
                    if q.is_some() {
                        self.user_info.user_comment = q;
                    }
                }
            },
            Field::MakerNote => {
                if let TagValue::Undefined(l) = v {
                    let w = crate::render::widen_bytes_i64(l);
                    self.uneditable.maker_note = Some(list_text(w.as_slice()));
                }
            },
        }
    }

    /// Clears one field.
    fn clear_field(&mut self, f: Field)
        ensures
            Self::unset(*final(self), f),
            Self::unchanged_except(*old(self), *final(self), set![f]),
            final(self).metadata == old(self).metadata,
            final(self).uneditable.unknown_dict == old(self).uneditable.unknown_dict,
    {
        match f {
            Field::Make => {
                self.basic_image_info.make = None;
            },
            Field::Model => {
                self.basic_image_info.model = None;
            },
            Field::Software => {
                self.basic_image_info.software = None;
            },
            Field::ImageWidth => {
                self.basic_image_info.image_width = None;
            },
            Field::ImageHeight => {
                self.basic_image_info.image_height = None;
            },
            Field::ExifImageWidth => {
                self.basic_image_info.exif_image_width = None;
            },
            Field::ExifImageHeight => {
                self.basic_image_info.exif_image_height = None;
            },
            Field::XResolution => {
                self.basic_image_info.x_resolution = None;
            },
            Field::YResolution => {
                self.basic_image_info.y_resolution = None;
            },
            Field::ResolutionUnit => {
                self.basic_image_info.resolution_unit = None;
            },
            Field::Compression => {
                self.basic_image_info.compression = None;
            },
            Field::PhotometricInterpretation => {
                self.basic_image_info.photometric_interpretation = None;
            },
            Field::ColorSpace => {
                self.basic_image_info.color_space = None;
            },
            Field::BitsPerSample => {
                self.basic_image_info.bits_per_sample = None;
            },
            Field::SamplesPerPixel => {
                self.basic_image_info.samples_per_pixel = None;
            },
            Field::PlanarConfiguration => {
                self.basic_image_info.planar_configuration = None;
            },
            Field::YCbCrSubSampling => {
                self.basic_image_info.ycbcr_sub_sampling = None;
            },
            Field::YCbCrPositioning => {
                self.basic_image_info.ycbcr_positioning = None;
            },
            Field::YCbCrCoefficients => {
                self.basic_image_info.ycbcr_coefficients = None;
            },
            Field::TransferFunction => {
                self.basic_image_info.transfer_function = None;
            },
            Field::WhitePoint => {
                self.basic_image_info.white_point = None;
            },
            Field::PrimaryChromaticities => {
                self.basic_image_info.primary_chromaticities = None;
            },
            Field::ReferenceBlackWhite => {
                self.basic_image_info.reference_black_white = None;
            },
            Field::ColorMap => {
                self.basic_image_info.color_map = None;
            },
            Field::StripOffsets => {
                self.basic_image_info.strip_offsets = None;
            },
            Field::StripByteCounts => {
                self.basic_image_info.strip_byte_counts = None;
            },
            Field::RowsPerStrip => {
                self.basic_image_info.rows_per_strip = None;
            },
            Field::Orientation => {
                self.basic_image_info.orientation = None;
            },
            Field::CellWidth => {
                self.basic_image_info.cell_width = None;
            },
            Field::CellHeight => {
                self.basic_image_info.cell_height = None;
            },
            Field::SerialNumber => {
                self.basic_image_info.serial_number = None;
            },
            Field::OwnerName => {
                self.basic_image_info.owner_name = None;
            },
            Field::LensInfo => {
                self.basic_image_info.lens_info = None;
            },
            Field::DateTimeOriginal => {
                self.exif_capture_info.date_time_original = None;
            },
            Field::OffsetTimeOriginal => {
                self.exif_capture_info.offset_time_original = None;
            },
            Field::SubSecTimeOriginal => {
                self.exif_capture_info.sub_sec_time_original = None;
            },
            Field::CreateDate => {
                self.exif_capture_info.create_date = None;
            },
            Field::OffsetTimeDigitized => {
                self.exif_capture_info.offset_time_digitized = None;
            },
            Field::SubSecTimeDigitized => {
                self.exif_capture_info.sub_sec_time_digitized = None;
            },
            Field::ModifyDate => {
                self.exif_capture_info.modify_date = None;
            },
            Field::OffsetTime => {
                self.exif_capture_info.offset_time = None;
            },
            Field::SubSecTime => {
                self.exif_capture_info.sub_sec_time = None;
            },
            Field::LensMake => {
                self.exif_capture_info.lens_make = None;
            },
            Field::LensModel => {
                self.exif_capture_info.lens_model = None;
            },
            Field::LensSerialNumber => {
                self.exif_capture_info.lens_serial_number = None;
            },
            Field::MaxApertureValue => {
                self.exif_capture_info.max_aperture_value = None;
            },
            Field::ExposureProgram => {
                self.exif_capture_info.exposure_program = None;
            },
            Field::ExposureMode => {
                self.exif_capture_info.exposure_mode = None;
            },
            Field::ExposureTime => {
                self.exif_capture_info.exposure_time = None;
            },
            Field::ShutterSpeedValue => {
                self.exif_capture_info.shutter_speed_value = None;
            },
            Field::FNumber => {
                self.exif_capture_info.f_number = None;
            },
            Field::ApertureValue => {
                self.exif_capture_info.aperture_value = None;
            },
            Field::ExposureCompensation => {
                self.exif_capture_info.exposure_compensation = None;
            },
            Field::BrightnessValue => {
                self.exif_capture_info.brightness_value = None;
            },
            Field::MeteringMode => {
                self.exif_capture_info.metering_mode = None;
            },
            Field::LightSource => {
                self.exif_capture_info.light_source = None;
            },
            Field::Flash => {
                self.exif_capture_info.flash = None;
            },
            Field::FocalLength => {
                self.exif_capture_info.focal_length = None;
            },
            Field::SubjectArea => {
                self.exif_capture_info.subject_area = None;
            },
            Field::SubjectLocation => {
                self.exif_capture_info.subject_location = None;
            },
            Field::SensitivityType => {
                self.exif_capture_info.sensitivity_type = None;
            },
            Field::ISO => {
                self.exif_capture_info.iso = None;
            },
            Field::ISOSpeed => {
                self.exif_capture_info.iso_speed = None;
            },
            Field::StandardOutputSensitivity => {
                self.exif_capture_info.standard_output_sensitivity = None;
            },
            Field::RecommendedExposureIndex => {
                self.exif_capture_info.recommended_exposure_index = None;
            },
            Field::ExposureIndex => {
                self.exif_capture_info.exposure_index = None;
            },
            Field::ISOSpeedLatitudeyyy => {
                self.exif_capture_info.iso_speed_latitude_yyy = None;
            },
            Field::ISOSpeedLatitudezzz => {
                self.exif_capture_info.iso_speed_latitude_zzz = None;
            },
            Field::ExifVersion => {
                self.exif_capture_info.exif_version = None;
            },
            Field::FlashpixVersion => {
                self.exif_capture_info.flashpix_version = None;
            },
            Field::ExifOffset => {
                self.exif_capture_info.exif_offset = None;
            },
            Field::ComponentsConfiguration => {
                self.exif_capture_info.components_configuration = None;
            },
            Field::CompressedBitsPerPixel => {
                self.exif_capture_info.compressed_bits_per_pixel = None;
            },
            Field::SensingMethod => {
                self.exif_capture_info.sensing_method = None;
            },
            Field::FileSource => {
                self.exif_capture_info.file_source = None;
            },
            Field::SceneType => {
                self.exif_capture_info.scene_type = None;
            },
            Field::CFAPattern => {
                self.exif_capture_info.cfa_pattern = None;
            },
            Field::AmbientTemperature => {
                self.exif_capture_info.ambient_temperature = None;
            },
            Field::Humidity => {
                self.exif_capture_info.humidity = None;
            },
            Field::Pressure => {
                self.exif_capture_info.pressure = None;
            },
            Field::WaterDepth => {
                self.exif_capture_info.water_depth = None;
            },
            Field::Acceleration => {
                self.exif_capture_info.acceleration = None;
            },
            Field::CameraElevationAngle => {
                self.exif_capture_info.camera_elevation_angle = None;
            },
            Field::SpectralSensitivity => {
                self.exif_capture_info.spectral_sensitivity = None;
            },
            Field::OECF => {
                self.exif_capture_info.oecf = None;
            },
            Field::SubjectDistance => {
                self.exif_capture_info.subject_distance = None;
            },
            Field::SubjectDistanceRange => {
                self.exif_capture_info.subject_distance_range = None;
            },
            Field::FlashEnergy => {
                self.exif_capture_info.flash_energy = None;
            },
            Field::SpatialFrequencyResponse => {
                self.exif_capture_info.spatial_frequency_response = None;
            },
            Field::FocalPlaneXResolution => {
                self.exif_capture_info.focal_plane_x_resolution = None;
            },
            Field::FocalPlaneYResolution => {
                self.exif_capture_info.focal_plane_y_resolution = None;
            },
            Field::FocalPlaneResolutionUnit => {
                self.exif_capture_info.focal_plane_resolution_unit = None;
            },
            Field::WhiteBalance => {
                self.exif_capture_info.white_balance = None;
            },
            Field::DigitalZoomRatio => {
                self.exif_capture_info.digital_zoom_ratio = None;
            },
            Field::FocalLengthIn35mmFormat => {
                self.exif_capture_info.focal_length_in_35mm_format = None;
            },
            Field::SceneCaptureType => {
                self.exif_capture_info.scene_capture_type = None;
            },
            Field::GainControl => {
                self.exif_capture_info.gain_control = None;
            },
            Field::Contrast => {
                self.exif_capture_info.contrast = None;
            },
            Field::Saturation => {
                self.exif_capture_info.saturation = None;
            },
            Field::Sharpness => {
                self.exif_capture_info.sharpness = None;
            },
            Field::CustomRendered => {
                self.exif_capture_info.custom_rendered = None;
            },
            Field::DeviceSettingDescription => {
                self.exif_capture_info.device_setting_description = None;
            },
            Field::Gamma => {
                self.exif_capture_info.gamma = None;
            },
            Field::RelatedSoundFile => {
                self.exif_capture_info.related_sound_file = None;
            },
            Field::ImageUniqueID => {
                self.exif_capture_info.image_unique_id = None;
            },
            Field::CompositeImage => {
                self.exif_capture_info.composite_image = None;
            },
            Field::CompositeImageCount => {
                self.exif_capture_info.composite_image_count = None;
            },
            Field::CompositeImageExposureTimes => {
                self.exif_capture_info.composite_image_exposure_times = None;
            },
            Field::GPSLatitudeRef => {
                self.gps_info.gps_latitude_ref = None;
            },
            Field::GPSLatitude => {
                self.gps_info.gps_latitude = None;
            },
            Field::GPSLongitudeRef => {
                self.gps_info.gps_longitude_ref = None;
            },
            Field::GPSLongitude => {
                self.gps_info.gps_longitude = None;
            },
            Field::GPSMapDatum => {
                self.gps_info.gps_map_datum = None;
            },
            Field::GPSAltitudeRef => {
                self.gps_info.gps_altitude_ref = None;
            },
            Field::GPSAltitude => {
                self.gps_info.gps_altitude = None;
            },
            Field::GPSSatellites => {
                self.gps_info.gps_satellites = None;
            },
            Field::GPSStatus => {
                self.gps_info.gps_status = None;
            },
            Field::GPSMeasureMode => {
                self.gps_info.gps_measure_mode = None;
            },
            Field::GPSDOP => {
                self.gps_info.gps_dop = None;
            },
            Field::GPSSpeedRef => {
                self.gps_info.gps_speed_ref = None;
            },
            Field::GPSSpeed => {
                self.gps_info.gps_speed = None;
            },
            Field::GPSTrackRef => {
                self.gps_info.gps_track_ref = None;
            },
            Field::GPSTrack => {
                self.gps_info.gps_track = None;
            },
            Field::GPSImgDirectionRef => {
                self.gps_info.gps_img_direction_ref = None;
            },
            Field::GPSImgDirection => {
                self.gps_info.gps_img_direction = None;
            },
            Field::GPSDestLatitudeRef => {
                self.gps_info.gps_dest_latitude_ref = None;
            },
            Field::GPSDestLatitude => {
                self.gps_info.gps_dest_latitude = None;
            },
            Field::GPSDestLongitudeRef => {
                self.gps_info.gps_dest_longitude_ref = None;
            },
            Field::GPSDestLongitude => {
                self.gps_info.gps_dest_longitude = None;
            },
            Field::GPSDestBearingRef => {
                self.gps_info.gps_dest_bearing_ref = None;
            },
            Field::GPSDestBearing => {
                self.gps_info.gps_dest_bearing = None;
            },
            Field::GPSDestDistanceRef => {
                self.gps_info.gps_dest_distance_ref = None;
            },
            Field::GPSDestDistance => {
                self.gps_info.gps_dest_distance = None;
            },
            Field::GPSProcessingMethod => {
                self.gps_info.gps_processing_method = None;
            },
            Field::GPSAreaInformation => {
                self.gps_info.gps_area_information = None;
            },
            Field::GPSDateStamp => {
                self.gps_info.gps_date_stamp = None;
            },
            Field::GPSTimeStamp => {
                self.gps_info.gps_time_stamp = None;
            },
            Field::GPSDifferential => {
                self.gps_info.gps_differential = None;
            },
            Field::GPSHPositioningError => {
                self.gps_info.gps_h_positioning_error = None;
            },
            Field::GPSVersionID => {
                self.gps_info.gps_version_id = None;
            },
            Field::GPSInfo => {
                self.gps_info.gps_info = None;
            },
            Field::InteropOffset => {
                self.interop_info.interop_offset = None;
            },
            Field::InteroperabilityIndex => {
                self.interop_info.interoperability_index = None;
            },
            Field::InteroperabilityVersion => {
                self.interop_info.interoperability_version = None;
            },
            Field::ThumbnailOffset => {
                self.thumbnail_info.thumbnail_offset = None;
            },
            Field::ThumbnailLength => {
                self.thumbnail_info.thumbnail_length = None;
            },
            Field::ImageDescription => {
                self.user_info.image_description = None;
            },
            Field::Artist => {
                self.user_info.artist = None;
            },
            Field::Copyright => {
                self.user_info.copyright = None;
            },
            Field::UserComment => {
                self.user_info.user_comment = None;
            },
            Field::MakerNote => {
                self.uneditable.maker_note = None;
            },
        }
    }

    /// Display text of the current value of the field that `k` owns. Coordinates, dates and
    /// times, the channel layout and the filter pattern have no single-line text; neither do keys
    /// outside the schema.
    pub open spec fn shown(d: ExifEditData, k: TagKey) -> Option<Seq<char>> {
        match field_of(k) {
            None => None,
            Some(f) => match f {
                Field::Make => match d.basic_image_info.make {
                    Some(x) => Some(x@),
                    None => None,
                },
                Field::Model => match d.basic_image_info.model {
                    Some(x) => Some(x@),
                    None => None,
                },
                Field::Software => match d.basic_image_info.software {
                    Some(x) => Some(x@),
                    None => None,
                },
                Field::ImageWidth => match d.basic_image_info.image_width {
                    Some(x) => Some(dec(x as nat)),
                    None => None,
                },
                Field::ImageHeight => match d.basic_image_info.image_height {
                    Some(x) => Some(dec(x as nat)),
                    None => None,
                },
                Field::ExifImageWidth => match d.basic_image_info.exif_image_width {
                    Some(x) => Some(dec(x as nat)),
                    None => None,
                },
                Field::ExifImageHeight => match d.basic_image_info.exif_image_height {
                    Some(x) => Some(dec(x as nat)),
                    None => None,
                },
                Field::XResolution => match d.basic_image_info.x_resolution {
                    Some(x) => Some(x.text()),
                    None => None,
                },
                Field::YResolution => match d.basic_image_info.y_resolution {
                    Some(x) => Some(x.text()),
                    None => None,
                },
                Field::ResolutionUnit => match d.basic_image_info.resolution_unit {
                    Some(x) => Some(x.text()),
                    None => None,
                },
                Field::Compression => match d.basic_image_info.compression {
                    Some(x) => Some(x.text()),
                    None => None,
                },
                Field::PhotometricInterpretation => match d.basic_image_info.photometric_interpretation {
                    Some(x) => Some(x.text()),
                    None => None,
                },
                Field::ColorSpace => match d.basic_image_info.color_space {
                    Some(x) => Some(x.text()),
                    None => None,
                },
                Field::BitsPerSample => match d.basic_image_info.bits_per_sample {
                    Some(x) => Some(join_dec(ints_u16(x@))),
                    None => None,
                },
                Field::SamplesPerPixel => match d.basic_image_info.samples_per_pixel {
                    Some(x) => Some(dec(x as nat)),
                    None => None,
                },
                Field::PlanarConfiguration => match d.basic_image_info.planar_configuration {
                    Some(x) => Some(x.text()),
                    None => None,
                },
                Field::YCbCrSubSampling => match d.basic_image_info.ycbcr_sub_sampling {
                    Some(x) => Some(x.text()),
                    None => None,
                },
                Field::YCbCrPositioning => match d.basic_image_info.ycbcr_positioning {
                    Some(x) => Some(x.text()),
                    None => None,
                },
                Field::YCbCrCoefficients => match d.basic_image_info.ycbcr_coefficients {
                    Some(x) => Some(join_f64(x@)),
                    None => None,
                },
                Field::TransferFunction => match d.basic_image_info.transfer_function {
                    Some(x) => Some(join_dec(ints_u16(x@))),
                    None => None,
                },
                Field::WhitePoint => match d.basic_image_info.white_point {
                    Some(x) => Some(join_f64(x@)),
                    None => None,
                },
                Field::PrimaryChromaticities => match d.basic_image_info.primary_chromaticities {
                    Some(x) => Some(join_f64(x@)),
                    None => None,
                },
                Field::ReferenceBlackWhite => match d.basic_image_info.reference_black_white {
                    Some(x) => Some(join_f64(x@)),
                    None => None,
                },
                Field::ColorMap => match d.basic_image_info.color_map {
                    Some(x) => Some(join_dec(ints_u16(x@))),
                    None => None,
                },
                Field::StripOffsets => match d.basic_image_info.strip_offsets {
                    Some(x) => Some(join_dec(ints_u32(x@))),
                    None => None,
                },
                Field::StripByteCounts => match d.basic_image_info.strip_byte_counts {
                    Some(x) => Some(join_dec(ints_u32(x@))),
                    None => None,
                },
                Field::RowsPerStrip => match d.basic_image_info.rows_per_strip {
                    Some(x) => Some(dec(x as nat)),
                    None => None,
                },
                Field::Orientation => match d.basic_image_info.orientation {
                    Some(x) => Some(x.text()),
                    None => None,
                },
                Field::CellWidth => match d.basic_image_info.cell_width {
                    Some(x) => Some(dec(x as nat)),
                    None => None,
                },
                Field::CellHeight => match d.basic_image_info.cell_height {
                    Some(x) => Some(dec(x as nat)),
                    None => None,
                },
                Field::SerialNumber => match d.basic_image_info.serial_number {
                    Some(x) => Some(x@),
                    None => None,
                },
                Field::OwnerName => match d.basic_image_info.owner_name {
                    Some(x) => Some(x@),
                    None => None,
                },
                Field::LensInfo => match d.basic_image_info.lens_info {
                    Some(x) => Some(join_f64(x@)),
                    None => None,
                },
                Field::DateTimeOriginal => None,
                Field::OffsetTimeOriginal => match d.exif_capture_info.offset_time_original {
                    Some(x) => Some(x.text()),
                    None => None,
                },
                Field::SubSecTimeOriginal => match d.exif_capture_info.sub_sec_time_original {
                    Some(x) => Some(dec(x as nat)),
                    None => None,
                },
                Field::CreateDate => None,
                Field::OffsetTimeDigitized => match d.exif_capture_info.offset_time_digitized {
                    Some(x) => Some(x.text()),
                    None => None,
                },
                Field::SubSecTimeDigitized => match d.exif_capture_info.sub_sec_time_digitized {
                    Some(x) => Some(dec(x as nat)),
                    None => None,
                },
                Field::ModifyDate => None,
                Field::OffsetTime => match d.exif_capture_info.offset_time {
                    Some(x) => Some(x.text()),
                    None => None,
                },
                Field::SubSecTime => match d.exif_capture_info.sub_sec_time {
                    Some(x) => Some(dec(x as nat)),
                    None => None,
                },
                Field::LensMake => match d.exif_capture_info.lens_make {
                    Some(x) => Some(x@),
                    None => None,
                },
                Field::LensModel => match d.exif_capture_info.lens_model {
                    Some(x) => Some(x@),
                    None => None,
                },
                Field::LensSerialNumber => match d.exif_capture_info.lens_serial_number {
                    Some(x) => Some(x@),
                    None => None,
                },
                Field::MaxApertureValue => match d.exif_capture_info.max_aperture_value {
                    Some(x) => Some(x.text()),
                    None => None,
                },
                Field::ExposureProgram => match d.exif_capture_info.exposure_program {
                    Some(x) => Some(x.text()),
                    None => None,
                },
                Field::ExposureMode => match d.exif_capture_info.exposure_mode {
                    Some(x) => Some(x.text()),
                    None => None,
                },
                Field::ExposureTime => match d.exif_capture_info.exposure_time {
                    Some(x) => Some(x.text()),
                    None => None,
                },
                Field::ShutterSpeedValue => match d.exif_capture_info.shutter_speed_value {
                    Some(x) => Some(x.text()),
                    None => None,
                },
                Field::FNumber => match d.exif_capture_info.f_number {
                    Some(x) => Some(x.text()),
                    None => None,
                },
                Field::ApertureValue => match d.exif_capture_info.aperture_value {
                    Some(x) => Some(x.text()),
                    None => None,
                },
                Field::ExposureCompensation => match d.exif_capture_info.exposure_compensation {
                    Some(x) => Some(x.text()),
                    None => None,
                },
                Field::BrightnessValue => match d.exif_capture_info.brightness_value {
                    Some(x) => Some(x.text()),
                    None => None,
                },
                Field::MeteringMode => match d.exif_capture_info.metering_mode {
                    Some(x) => Some(x.text()),
                    None => None,
                },
                Field::LightSource => match d.exif_capture_info.light_source {
                    Some(x) => Some(x.text()),
                    None => None,
                },
                Field::Flash => match d.exif_capture_info.flash {
                    Some(x) => Some(x.text()),
                    None => None,
                },
                Field::FocalLength => match d.exif_capture_info.focal_length {
                    Some(x) => Some(x.text()),
                    None => None,
                },
                Field::SubjectArea => match d.exif_capture_info.subject_area {
                    Some(x) => Some(join_dec(ints_u16(x@))),
                    None => None,
                },
                Field::SubjectLocation => match d.exif_capture_info.subject_location {
                    Some(x) => Some(join_dec(ints_u16(x@))),
                    None => None,
                },
                Field::SensitivityType => match d.exif_capture_info.sensitivity_type {
                    Some(x) => Some(x.text()),
                    None => None,
                },
                Field::ISO => match d.exif_capture_info.iso {
                    Some(x) => Some(join_dec(ints_u16(x@))),
                    None => None,
                },
                Field::ISOSpeed => match d.exif_capture_info.iso_speed {
                    Some(x) => Some(dec(x as nat)),
                    None => None,
                },
                Field::StandardOutputSensitivity => match d.exif_capture_info.standard_output_sensitivity {
                    Some(x) => Some(dec(x as nat)),
                    None => None,
                },
                Field::RecommendedExposureIndex => match d.exif_capture_info.recommended_exposure_index {
                    Some(x) => Some(dec(x as nat)),
                    None => None,
                },
                Field::ExposureIndex => match d.exif_capture_info.exposure_index {
                    Some(x) => Some(x.text()),
                    None => None,
                },
                Field::ISOSpeedLatitudeyyy => match d.exif_capture_info.iso_speed_latitude_yyy {
                    Some(x) => Some(dec(x as nat)),
                    None => None,
                },
                Field::ISOSpeedLatitudezzz => match d.exif_capture_info.iso_speed_latitude_zzz {
                    Some(x) => Some(dec(x as nat)),
                    None => None,
                },
                Field::ExifVersion => match d.exif_capture_info.exif_version {
                    Some(x) => Some(x@),
                    None => None,
                },
                Field::FlashpixVersion => match d.exif_capture_info.flashpix_version {
                    Some(x) => Some(x@),
                    None => None,
                },
                Field::ExifOffset => match d.exif_capture_info.exif_offset {
                    Some(x) => Some(dec(x as nat)),
                    None => None,
                },
                Field::ComponentsConfiguration => None,
                Field::CompressedBitsPerPixel => match d.exif_capture_info.compressed_bits_per_pixel {
                    Some(x) => Some(x.text()),
                    None => None,
                },
                Field::SensingMethod => match d.exif_capture_info.sensing_method {
                    Some(x) => Some(x.text()),
                    None => None,
                },
                Field::FileSource => match d.exif_capture_info.file_source {
                    Some(x) => Some(x.text()),
                    None => None,
                },
                Field::SceneType => match d.exif_capture_info.scene_type {
                    Some(x) => Some(x.text()),
                    None => None,
                },
                Field::CFAPattern => None,
                Field::AmbientTemperature => match d.exif_capture_info.ambient_temperature {
                    Some(x) => Some(x.text()),
                    None => None,
                },
                Field::Humidity => match d.exif_capture_info.humidity {
                    Some(x) => Some(x.text()),
                    None => None,
                },
                Field::Pressure => match d.exif_capture_info.pressure {
                    Some(x) => Some(x.text()),
                    None => None,
                },
                Field::WaterDepth => match d.exif_capture_info.water_depth {
                    Some(x) => Some(x.text()),
                    None => None,
                },
                Field::Acceleration => match d.exif_capture_info.acceleration {
                    Some(x) => Some(x.text()),
                    None => None,
                },
                Field::CameraElevationAngle => match d.exif_capture_info.camera_elevation_angle {
                    Some(x) => Some(x.text()),
                    None => None,
                },
                Field::SpectralSensitivity => match d.exif_capture_info.spectral_sensitivity {
                    Some(x) => Some(x@),
                    None => None,
                },
                Field::OECF => match d.exif_capture_info.oecf {
                    Some(x) => Some(join_dec(ints_u8(x@))),
                    None => None,
                },
                Field::SubjectDistance => match d.exif_capture_info.subject_distance {
                    Some(x) => Some(x.text()),
                    None => None,
                },
                Field::SubjectDistanceRange => match d.exif_capture_info.subject_distance_range {
                    Some(x) => Some(dec(x as nat)),
                    None => None,
                },
                Field::FlashEnergy => match d.exif_capture_info.flash_energy {
                    Some(x) => Some(x.text()),
                    None => None,
                },
                Field::SpatialFrequencyResponse => match d.exif_capture_info.spatial_frequency_response {
                    Some(x) => Some(join_dec(ints_u16(x@))),
                    None => None,
                },
                Field::FocalPlaneXResolution => match d.exif_capture_info.focal_plane_x_resolution {
                    Some(x) => Some(x.text()),
                    None => None,
                },
                Field::FocalPlaneYResolution => match d.exif_capture_info.focal_plane_y_resolution {
                    Some(x) => Some(x.text()),
                    None => None,
                },
                Field::FocalPlaneResolutionUnit => match d.exif_capture_info.focal_plane_resolution_unit {
                    Some(x) => Some(x.text()),
                    None => None,
                },
                Field::WhiteBalance => match d.exif_capture_info.white_balance {
                    Some(x) => Some(x.text()),
                    None => None,
                },
                Field::DigitalZoomRatio => match d.exif_capture_info.digital_zoom_ratio {
                    Some(x) => Some(x.text()),
                    None => None,
                },
                Field::FocalLengthIn35mmFormat => match d.exif_capture_info.focal_length_in_35mm_format {
                    Some(x) => Some(dec(x as nat)),
                    None => None,
                },
                Field::SceneCaptureType => match d.exif_capture_info.scene_capture_type {
                    Some(x) => Some(x.text()),
                    None => None,
                },
                Field::GainControl => match d.exif_capture_info.gain_control {
                    Some(x) => Some(x.text()),
                    None => None,
                },
                Field::Contrast => match d.exif_capture_info.contrast {
                    Some(x) => Some(x.text()),
                    None => None,
                },
                Field::Saturation => match d.exif_capture_info.saturation {
                    Some(x) => Some(x.text()),
                    None => None,
                },
                Field::Sharpness => match d.exif_capture_info.sharpness {
                    Some(x) => Some(x.text()),
                    None => None,
                },
                Field::CustomRendered => match d.exif_capture_info.custom_rendered {
                    Some(x) => Some(x.text()),
                    None => None,
                },
                Field::DeviceSettingDescription => match d.exif_capture_info.device_setting_description {
                    Some(x) => Some(join_dec(ints_u8(x@))),
                    None => None,
                },
                Field::Gamma => match d.exif_capture_info.gamma {
                    Some(x) => Some(x.text()),
                    None => None,
                },
                Field::RelatedSoundFile => match d.exif_capture_info.related_sound_file {
                    Some(x) => Some(x@),
                    None => None,
                },
                Field::ImageUniqueID => match d.exif_capture_info.image_unique_id {
                    Some(x) => Some(x@),
                    None => None,
                },
                Field::CompositeImage => match d.exif_capture_info.composite_image {
                    Some(x) => Some(x.text()),
                    None => None,
                },
                Field::CompositeImageCount => match d.exif_capture_info.composite_image_count {
                    Some(x) => Some(join_dec(ints_u16(x@))),
                    None => None,
                },
                Field::CompositeImageExposureTimes => match d.exif_capture_info.composite_image_exposure_times {
                    Some(x) => Some(join_dec(ints_u8(x@))),
                    None => None,
                },
                Field::GPSLatitudeRef => match d.gps_info.gps_latitude_ref {
                    Some(x) => Some(bool_text(x)),
                    None => None,
                },
                Field::GPSLatitude => None,
                Field::GPSLongitudeRef => match d.gps_info.gps_longitude_ref {
                    Some(x) => Some(bool_text(x)),
                    None => None,
                },
                Field::GPSLongitude => None,
                Field::GPSMapDatum => match d.gps_info.gps_map_datum {
                    Some(x) => Some(x@),
                    None => None,
                },
                Field::GPSAltitudeRef => match d.gps_info.gps_altitude_ref {
                    Some(x) => Some(x.text()),
                    None => None,
                },
                Field::GPSAltitude => match d.gps_info.gps_altitude {
                    Some(x) => Some(x.text()),
                    None => None,
                },
                Field::GPSSatellites => match d.gps_info.gps_satellites {
                    Some(x) => Some(x@),
                    None => None,
                },
                Field::GPSStatus => match d.gps_info.gps_status {
                    Some(x) => Some(x.text()),
                    None => None,
                },
                Field::GPSMeasureMode => match d.gps_info.gps_measure_mode {
                    Some(x) => Some(x.text()),
                    None => None,
                },
                Field::GPSDOP => match d.gps_info.gps_dop {
                    Some(x) => Some(x.text()),
                    None => None,
                },
                Field::GPSSpeedRef => match d.gps_info.gps_speed_ref {
                    Some(x) => Some(x.text()),
                    None => None,
                },
                Field::GPSSpeed => match d.gps_info.gps_speed {
                    Some(x) => Some(x.text()),
                    None => None,
                },
                Field::GPSTrackRef => match d.gps_info.gps_track_ref {
                    Some(x) => Some(x.text()),
                    None => None,
                },
                Field::GPSTrack => match d.gps_info.gps_track {
                    Some(x) => Some(x.text()),
                    None => None,
                },
                Field::GPSImgDirectionRef => match d.gps_info.gps_img_direction_ref {
                    Some(x) => Some(x.text()),
                    None => None,
                },
                Field::GPSImgDirection => match d.gps_info.gps_img_direction {
                    Some(x) => Some(x.text()),
                    None => None,
                },
                Field::GPSDestLatitudeRef => match d.gps_info.gps_dest_latitude_ref {
                    Some(x) => Some(bool_text(x)),
                    None => None,
                },
                Field::GPSDestLatitude => None,
                Field::GPSDestLongitudeRef => match d.gps_info.gps_dest_longitude_ref {
                    Some(x) => Some(bool_text(x)),
                    None => None,
                },
                Field::GPSDestLongitude => None,
                Field::GPSDestBearingRef => match d.gps_info.gps_dest_bearing_ref {
                    Some(x) => Some(x.text()),
                    None => None,
                },
                Field::GPSDestBearing => match d.gps_info.gps_dest_bearing {
                    Some(x) => Some(x.text()),
                    None => None,
                },
                Field::GPSDestDistanceRef => match d.gps_info.gps_dest_distance_ref {
                    Some(x) => Some(x.text()),
                    None => None,
                },
                Field::GPSDestDistance => match d.gps_info.gps_dest_distance {
                    Some(x) => Some(x.text()),
                    None => None,
                },
                Field::GPSProcessingMethod => match d.gps_info.gps_processing_method {
                    Some(x) => Some(join_dec(ints_u8(x@))),
                    None => None,
                },
                Field::GPSAreaInformation => match d.gps_info.gps_area_information {
                    Some(x) => Some(join_dec(ints_u8(x@))),
                    None => None,
                },
                Field::GPSDateStamp => None,
                Field::GPSTimeStamp => None,
                Field::GPSDifferential => match d.gps_info.gps_differential {
                    Some(x) => Some(x.text()),
                    None => None,
                },
                Field::GPSHPositioningError => match d.gps_info.gps_h_positioning_error {
                    Some(x) => Some(x.text()),
                    None => None,
                },
                Field::GPSVersionID => match d.gps_info.gps_version_id {
                    Some(x) => Some(join_dec(ints_u8(x@))),
                    None => None,
                },
                Field::GPSInfo => match d.gps_info.gps_info {
                    Some(x) => Some(dec(x as nat)),
                    None => None,
                },
                Field::InteropOffset => match d.interop_info.interop_offset {
                    Some(x) => Some(dec(x as nat)),
                    None => None,
                },
                Field::InteroperabilityIndex => match d.interop_info.interoperability_index {
                    Some(x) => Some(x.text()),
                    None => None,
                },
                Field::InteroperabilityVersion => match d.interop_info.interoperability_version {
                    Some(x) => Some(join_dec(ints_u8(x@))),
                    None => None,
                },
                Field::ThumbnailOffset => match d.thumbnail_info.thumbnail_offset {
                    Some(x) => Some(join_dec(ints_u32(x@))),
                    None => None,
                },
                Field::ThumbnailLength => match d.thumbnail_info.thumbnail_length {
                    Some(x) => Some(dec(x as nat)),
                    None => None,
                },
                Field::ImageDescription => match d.user_info.image_description {
                    Some(x) => Some(x@),
                    None => None,
                },
                Field::Artist => match d.user_info.artist {
                    Some(x) => Some(x@),
                    None => None,
                },
                Field::Copyright => match d.user_info.copyright {
                    Some(x) => Some(x@),
                    None => None,
                },
                Field::UserComment => match d.user_info.user_comment {
                    Some(x) => Some(x.decoded@),
                    None => None,
                },
                Field::MakerNote => match d.uneditable.maker_note {
                    Some(x) => Some(x@),
                    None => None,
                },
            },
        }
    }

    /// Display text of the current value under `(group, id)`, as `shown` describes.
    pub fn pick_value(&self, group: ExifTagGroup, id: u16) -> (r: Option<String>)
        ensures
            r matches Some(t) ==> Self::shown(*self, (group, id)) == Some(t@),
            r is None ==> Self::shown(*self, (group, id)) is None,
    {
        let f = match field_of_key(group, id) {
            Some(f) => f,
            None => {
                return None;
            },
        };
        match f {
            Field::Make => match &self.basic_image_info.make {
                Some(x) => Some(x.clone()),
                None => None,
            },
            Field::Model => match &self.basic_image_info.model {
                Some(x) => Some(x.clone()),
                None => None,
            },
            Field::Software => match &self.basic_image_info.software {
                Some(x) => Some(x.clone()),
                None => None,
            },
            Field::ImageWidth => match self.basic_image_info.image_width {
                Some(x) => Some(decimal_text(x as u64)),
                None => None,
            },
            Field::ImageHeight => match self.basic_image_info.image_height {
                Some(x) => Some(decimal_text(x as u64)),
                None => None,
            },
            Field::ExifImageWidth => match self.basic_image_info.exif_image_width {
                Some(x) => Some(decimal_text(x as u64)),
                None => None,
            },
            Field::ExifImageHeight => match self.basic_image_info.exif_image_height {
                Some(x) => Some(decimal_text(x as u64)),
                None => None,
            },
            Field::XResolution => match self.basic_image_info.x_resolution {
                Some(x) => Some(x.show_value()),
                None => None,
            },
            Field::YResolution => match self.basic_image_info.y_resolution {
                Some(x) => Some(x.show_value()),
                None => None,
            },
            Field::ResolutionUnit => match &self.basic_image_info.resolution_unit {
                Some(x) => Some(x.to_string()),
                None => None,
            },
            Field::Compression => match &self.basic_image_info.compression {
                Some(x) => Some(x.to_string()),
                None => None,
            },
            Field::PhotometricInterpretation => match &self.basic_image_info.photometric_interpretation {
                Some(x) => Some(x.to_string()),
                None => None,
            },
            Field::ColorSpace => match &self.basic_image_info.color_space {
                Some(x) => Some(x.to_string()),
                None => None,
            },
            Field::BitsPerSample => match &self.basic_image_info.bits_per_sample {
                Some(x) => Some(join_text(crate::render::widen_u16_i64(x).as_slice())),
                None => None,
            },
            Field::SamplesPerPixel => match self.basic_image_info.samples_per_pixel {
                Some(x) => Some(decimal_text(x as u64)),
                None => None,
            },
            Field::PlanarConfiguration => match &self.basic_image_info.planar_configuration {
                Some(x) => Some(x.to_string()),
                None => None,
            },
            Field::YCbCrSubSampling => match &self.basic_image_info.ycbcr_sub_sampling {
                Some(x) => Some(x.to_string()),
                None => None,
            },
            Field::YCbCrPositioning => match &self.basic_image_info.ycbcr_positioning {
                Some(x) => Some(x.to_string()),
                None => None,
            },
            Field::YCbCrCoefficients => match &self.basic_image_info.ycbcr_coefficients {
                Some(x) => Some(f64s_text(x)),
                None => None,
            },
            Field::TransferFunction => match &self.basic_image_info.transfer_function {
                Some(x) => Some(join_text(crate::render::widen_u16_i64(x).as_slice())),
                None => None,
            },
            Field::WhitePoint => match &self.basic_image_info.white_point {
                Some(x) => Some(f64s_text(x)),
                None => None,
            },
            Field::PrimaryChromaticities => match &self.basic_image_info.primary_chromaticities {
                Some(x) => Some(f64s_text(x)),
                None => None,
            },
            Field::ReferenceBlackWhite => match &self.basic_image_info.reference_black_white {
                Some(x) => Some(f64s_text(x)),
                None => None,
            },
            Field::ColorMap => match &self.basic_image_info.color_map {
                Some(x) => Some(join_text(crate::render::widen_u16_i64(x).as_slice())),
                None => None,
            },
            Field::StripOffsets => match &self.basic_image_info.strip_offsets {
                Some(x) => Some(join_text(crate::render::widen_u32_i64(x).as_slice())),
                None => None,
            },
            Field::StripByteCounts => match &self.basic_image_info.strip_byte_counts {
                Some(x) => Some(join_text(crate::render::widen_u32_i64(x).as_slice())),
                None => None,
            },
            Field::RowsPerStrip => match self.basic_image_info.rows_per_strip {
                Some(x) => Some(decimal_text(x as u64)),
                None => None,
            },
            Field::Orientation => match &self.basic_image_info.orientation {
                Some(x) => Some(x.to_string()),
                None => None,
            },
            Field::CellWidth => match self.basic_image_info.cell_width {
                Some(x) => Some(decimal_text(x as u64)),
                None => None,
            },
            Field::CellHeight => match self.basic_image_info.cell_height {
                Some(x) => Some(decimal_text(x as u64)),
                None => None,
            },
            Field::SerialNumber => match &self.basic_image_info.serial_number {
                Some(x) => Some(x.clone()),
                None => None,
            },
            Field::OwnerName => match &self.basic_image_info.owner_name {
                Some(x) => Some(x.clone()),
                None => None,
            },
            Field::LensInfo => match &self.basic_image_info.lens_info {
                Some(x) => Some(f64s_text(x)),
                None => None,
            },
            Field::DateTimeOriginal => None,
            Field::OffsetTimeOriginal => match self.exif_capture_info.offset_time_original {
                Some(x) => Some(x.to_string()),
                None => None,
            },
            Field::SubSecTimeOriginal => match self.exif_capture_info.sub_sec_time_original {
                Some(x) => Some(decimal_text(x as u64)),
                None => None,
            },
            Field::CreateDate => None,
            Field::OffsetTimeDigitized => match self.exif_capture_info.offset_time_digitized {
                Some(x) => Some(x.to_string()),
                None => None,
            },
            Field::SubSecTimeDigitized => match self.exif_capture_info.sub_sec_time_digitized {
                Some(x) => Some(decimal_text(x as u64)),
                None => None,
            },
            Field::ModifyDate => None,
            Field::OffsetTime => match self.exif_capture_info.offset_time {
                Some(x) => Some(x.to_string()),
                None => None,
            },
            Field::SubSecTime => match self.exif_capture_info.sub_sec_time {
                Some(x) => Some(decimal_text(x as u64)),
                None => None,
            },
            Field::LensMake => match &self.exif_capture_info.lens_make {
                Some(x) => Some(x.clone()),
                None => None,
            },
            Field::LensModel => match &self.exif_capture_info.lens_model {
                Some(x) => Some(x.clone()),
                None => None,
            },
            Field::LensSerialNumber => match &self.exif_capture_info.lens_serial_number {
                Some(x) => Some(x.clone()),
                None => None,
            },
            Field::MaxApertureValue => match self.exif_capture_info.max_aperture_value {
                Some(x) => Some(x.show_value()),
                None => None,
            },
            Field::ExposureProgram => match &self.exif_capture_info.exposure_program {
                Some(x) => Some(x.to_string()),
                None => None,
            },
            Field::ExposureMode => match &self.exif_capture_info.exposure_mode {
                Some(x) => Some(x.to_string()),
                None => None,
            },
            Field::ExposureTime => match self.exif_capture_info.exposure_time {
                Some(x) => Some(x.show_value()),
                None => None,
            },
            Field::ShutterSpeedValue => match self.exif_capture_info.shutter_speed_value {
                Some(x) => Some(x.show_value()),
                None => None,
            },
            Field::FNumber => match self.exif_capture_info.f_number {
                Some(x) => Some(x.show_value()),
                None => None,
            },
            Field::ApertureValue => match self.exif_capture_info.aperture_value {
                Some(x) => Some(x.show_value()),
                None => None,
            },
            Field::ExposureCompensation => match self.exif_capture_info.exposure_compensation {
                Some(x) => Some(x.show_value()),
                None => None,
            },
            Field::BrightnessValue => match self.exif_capture_info.brightness_value {
                Some(x) => Some(x.show_value()),
                None => None,
            },
            Field::MeteringMode => match &self.exif_capture_info.metering_mode {
                Some(x) => Some(x.to_string()),
                None => None,
            },
            Field::LightSource => match &self.exif_capture_info.light_source {
                Some(x) => Some(x.to_string()),
                None => None,
            },
            Field::Flash => match &self.exif_capture_info.flash {
                Some(x) => Some(x.to_string()),
                None => None,
            },
            Field::FocalLength => match self.exif_capture_info.focal_length {
                Some(x) => Some(x.show_value()),
                None => None,
            },
            Field::SubjectArea => match &self.exif_capture_info.subject_area {
                Some(x) => Some(join_text(crate::render::widen_u16_i64(x).as_slice())),
                None => None,
            },
            Field::SubjectLocation => match &self.exif_capture_info.subject_location {
                Some(x) => Some(join_text(crate::render::widen_u16_i64(x).as_slice())),
                None => None,
            },
            Field::SensitivityType => match &self.exif_capture_info.sensitivity_type {
                Some(x) => Some(x.to_string()),
                None => None,
            },
            Field::ISO => match &self.exif_capture_info.iso {
                Some(x) => Some(join_text(crate::render::widen_u16_i64(x).as_slice())),
                None => None,
            },
            Field::ISOSpeed => match self.exif_capture_info.iso_speed {
                Some(x) => Some(decimal_text(x as u64)),
                None => None,
            },
            Field::StandardOutputSensitivity => match self.exif_capture_info.standard_output_sensitivity {
                Some(x) => Some(decimal_text(x as u64)),
                None => None,
            },
            Field::RecommendedExposureIndex => match self.exif_capture_info.recommended_exposure_index {
                Some(x) => Some(decimal_text(x as u64)),
                None => None,
            },
            Field::ExposureIndex => match self.exif_capture_info.exposure_index {
                Some(x) => Some(x.show_value()),
                None => None,
            },
            Field::ISOSpeedLatitudeyyy => match self.exif_capture_info.iso_speed_latitude_yyy {
                Some(x) => Some(decimal_text(x as u64)),
                None => None,
            },
            Field::ISOSpeedLatitudezzz => match self.exif_capture_info.iso_speed_latitude_zzz {
                Some(x) => Some(decimal_text(x as u64)),
                None => None,
            },
            Field::ExifVersion => match &self.exif_capture_info.exif_version {
                Some(x) => Some(x.clone()),
                None => None,
            },
            Field::FlashpixVersion => match &self.exif_capture_info.flashpix_version {
                Some(x) => Some(x.clone()),
                None => None,
            },
            Field::ExifOffset => match self.exif_capture_info.exif_offset {
                Some(x) => Some(decimal_text(x as u64)),
                None => None,
            },
            Field::ComponentsConfiguration => None,
            Field::CompressedBitsPerPixel => match self.exif_capture_info.compressed_bits_per_pixel {
                Some(x) => Some(x.show_value()),
                None => None,
            },
            Field::SensingMethod => match &self.exif_capture_info.sensing_method {
                Some(x) => Some(x.to_string()),
                None => None,
            },
            Field::FileSource => match &self.exif_capture_info.file_source {
                Some(x) => Some(x.to_string()),
                None => None,
            },
            Field::SceneType => match &self.exif_capture_info.scene_type {
                Some(x) => Some(x.to_string()),
                None => None,
            },
            Field::CFAPattern => None,
            Field::AmbientTemperature => match self.exif_capture_info.ambient_temperature {
                Some(x) => Some(x.show_value()),
                None => None,
            },
            Field::Humidity => match self.exif_capture_info.humidity {
                Some(x) => Some(x.show_value()),
                None => None,
            },
            Field::Pressure => match self.exif_capture_info.pressure {
                Some(x) => Some(x.show_value()),
                None => None,
            },
            Field::WaterDepth => match self.exif_capture_info.water_depth {
                Some(x) => Some(x.show_value()),
                None => None,
            },
            Field::Acceleration => match self.exif_capture_info.acceleration {
                Some(x) => Some(x.show_value()),
                None => None,
            },
            Field::CameraElevationAngle => match self.exif_capture_info.camera_elevation_angle {
                Some(x) => Some(x.show_value()),
                None => None,
            },
            Field::SpectralSensitivity => match &self.exif_capture_info.spectral_sensitivity {
                Some(x) => Some(x.clone()),
                None => None,
            },
            Field::OECF => match &self.exif_capture_info.oecf {
                Some(x) => Some(join_text(crate::render::widen_bytes_i64(x).as_slice())),
                None => None,
            },
            Field::SubjectDistance => match self.exif_capture_info.subject_distance {
                Some(x) => Some(x.show_value()),
                None => None,
            },
            Field::SubjectDistanceRange => match self.exif_capture_info.subject_distance_range {
                Some(x) => Some(decimal_text(x as u64)),
                None => None,
            },
            Field::FlashEnergy => match self.exif_capture_info.flash_energy {
                Some(x) => Some(x.show_value()),
                None => None,
            },
            Field::SpatialFrequencyResponse => match &self.exif_capture_info.spatial_frequency_response {
                Some(x) => Some(join_text(crate::render::widen_u16_i64(x).as_slice())),
                None => None,
            },
            Field::FocalPlaneXResolution => match self.exif_capture_info.focal_plane_x_resolution {
                Some(x) => Some(x.show_value()),
                None => None,
            },
            Field::FocalPlaneYResolution => match self.exif_capture_info.focal_plane_y_resolution {
                Some(x) => Some(x.show_value()),
                None => None,
            },
            Field::FocalPlaneResolutionUnit => match &self.exif_capture_info.focal_plane_resolution_unit {
                Some(x) => Some(x.to_string()),
                None => None,
            },
            Field::WhiteBalance => match &self.exif_capture_info.white_balance {
                Some(x) => Some(x.to_string()),
                None => None,
            },
            Field::DigitalZoomRatio => match self.exif_capture_info.digital_zoom_ratio {
                Some(x) => Some(x.show_value()),
                None => None,
            },
            Field::FocalLengthIn35mmFormat => match self.exif_capture_info.focal_length_in_35mm_format {
                Some(x) => Some(decimal_text(x as u64)),
                None => None,
            },
            Field::SceneCaptureType => match &self.exif_capture_info.scene_capture_type {
                Some(x) => Some(x.to_string()),
                None => None,
            },
            Field::GainControl => match &self.exif_capture_info.gain_control {
                Some(x) => Some(x.to_string()),
                None => None,
            },
            Field::Contrast => match &self.exif_capture_info.contrast {
                Some(x) => Some(x.to_string()),
                None => None,
            },
            Field::Saturation => match &self.exif_capture_info.saturation {
                Some(x) => Some(x.to_string()),
                None => None,
            },
            Field::Sharpness => match &self.exif_capture_info.sharpness {
                Some(x) => Some(x.to_string()),
                None => None,
            },
            Field::CustomRendered => match &self.exif_capture_info.custom_rendered {
                Some(x) => Some(x.to_string()),
                None => None,
            },
            Field::DeviceSettingDescription => match &self.exif_capture_info.device_setting_description {
                Some(x) => Some(join_text(crate::render::widen_bytes_i64(x).as_slice())),
                None => None,
            },
            Field::Gamma => match self.exif_capture_info.gamma {
                Some(x) => Some(x.show_value()),
                None => None,
            },
            Field::RelatedSoundFile => match &self.exif_capture_info.related_sound_file {
                Some(x) => Some(x.clone()),
                None => None,
            },
            Field::ImageUniqueID => match &self.exif_capture_info.image_unique_id {
                Some(x) => Some(x.clone()),
                None => None,
            },
            Field::CompositeImage => match &self.exif_capture_info.composite_image {
                Some(x) => Some(x.to_string()),
                None => None,
            },
            Field::CompositeImageCount => match &self.exif_capture_info.composite_image_count {
                Some(x) => Some(join_text(crate::render::widen_u16_i64(x).as_slice())),
                None => None,
            },
            Field::CompositeImageExposureTimes => match &self.exif_capture_info.composite_image_exposure_times {
                Some(x) => Some(join_text(crate::render::widen_bytes_i64(x).as_slice())),
                None => None,
            },
            Field::GPSLatitudeRef => match self.gps_info.gps_latitude_ref {
                Some(x) => Some(bool_string(x)),
                None => None,
            },
            Field::GPSLatitude => None,
            Field::GPSLongitudeRef => match self.gps_info.gps_longitude_ref {
                Some(x) => Some(bool_string(x)),
                None => None,
            },
            Field::GPSLongitude => None,
            Field::GPSMapDatum => match &self.gps_info.gps_map_datum {
                Some(x) => Some(x.clone()),
                None => None,
            },
            Field::GPSAltitudeRef => match &self.gps_info.gps_altitude_ref {
                Some(x) => Some(x.to_string()),
                None => None,
            },
            Field::GPSAltitude => match self.gps_info.gps_altitude {
                Some(x) => Some(x.show_value()),
                None => None,
            },
            Field::GPSSatellites => match &self.gps_info.gps_satellites {
                Some(x) => Some(x.clone()),
                None => None,
            },
            Field::GPSStatus => match self.gps_info.gps_status {
                Some(x) => Some(x.to_string()),
                None => None,
            },
            Field::GPSMeasureMode => match self.gps_info.gps_measure_mode {
                Some(x) => Some(x.to_string()),
                None => None,
            },
            Field::GPSDOP => match self.gps_info.gps_dop {
                Some(x) => Some(x.show_value()),
                None => None,
            },
            Field::GPSSpeedRef => match self.gps_info.gps_speed_ref {
                Some(x) => Some(x.to_string()),
                None => None,
            },
            Field::GPSSpeed => match self.gps_info.gps_speed {
                Some(x) => Some(x.show_value()),
                None => None,
            },
            Field::GPSTrackRef => match self.gps_info.gps_track_ref {
                Some(x) => Some(x.to_string()),
                None => None,
            },
            Field::GPSTrack => match self.gps_info.gps_track {
                Some(x) => Some(x.show_value()),
                None => None,
            },
            Field::GPSImgDirectionRef => match self.gps_info.gps_img_direction_ref {
                Some(x) => Some(x.to_string()),
                None => None,
            },
            Field::GPSImgDirection => match self.gps_info.gps_img_direction {
                Some(x) => Some(x.show_value()),
                None => None,
            },
            Field::GPSDestLatitudeRef => match self.gps_info.gps_dest_latitude_ref {
                Some(x) => Some(bool_string(x)),
                None => None,
            },
            Field::GPSDestLatitude => None,
            Field::GPSDestLongitudeRef => match self.gps_info.gps_dest_longitude_ref {
                Some(x) => Some(bool_string(x)),
                None => None,
            },
            Field::GPSDestLongitude => None,
            Field::GPSDestBearingRef => match self.gps_info.gps_dest_bearing_ref {
                Some(x) => Some(x.to_string()),
                None => None,
            },
            Field::GPSDestBearing => match self.gps_info.gps_dest_bearing {
                Some(x) => Some(x.show_value()),
                None => None,
            },
            Field::GPSDestDistanceRef => match self.gps_info.gps_dest_distance_ref {
                Some(x) => Some(x.to_string()),
                None => None,
            },
            Field::GPSDestDistance => match self.gps_info.gps_dest_distance {
                Some(x) => Some(x.show_value()),
                None => None,
            },
            Field::GPSProcessingMethod => match &self.gps_info.gps_processing_method {
                Some(x) => Some(join_text(crate::render::widen_bytes_i64(x).as_slice())),
                None => None,
            },
            Field::GPSAreaInformation => match &self.gps_info.gps_area_information {
                Some(x) => Some(join_text(crate::render::widen_bytes_i64(x).as_slice())),
                None => None,
            },
            Field::GPSDateStamp => None,
            Field::GPSTimeStamp => None,
            Field::GPSDifferential => match &self.gps_info.gps_differential {
                Some(x) => Some(x.to_string()),
                None => None,
            },
            Field::GPSHPositioningError => match self.gps_info.gps_h_positioning_error {
                Some(x) => Some(x.show_value()),
                None => None,
            },
            Field::GPSVersionID => match &self.gps_info.gps_version_id {
                Some(x) => Some(join_text(crate::render::widen_bytes_i64(x).as_slice())),
                None => None,
            },
            Field::GPSInfo => match self.gps_info.gps_info {
                Some(x) => Some(decimal_text(x as u64)),
                None => None,
            },
            Field::InteropOffset => match self.interop_info.interop_offset {
                Some(x) => Some(decimal_text(x as u64)),
                None => None,
            },
            Field::InteroperabilityIndex => match self.interop_info.interoperability_index {
                Some(x) => Some(x.to_string()),
                None => None,
            },
            Field::InteroperabilityVersion => match &self.interop_info.interoperability_version {
                Some(x) => Some(join_text(crate::render::widen_bytes_i64(x).as_slice())),
                None => None,
            },
            Field::ThumbnailOffset => match &self.thumbnail_info.thumbnail_offset {
                Some(x) => Some(join_text(crate::render::widen_u32_i64(x).as_slice())),
                None => None,
            },
            Field::ThumbnailLength => match self.thumbnail_info.thumbnail_length {
                Some(x) => Some(decimal_text(x as u64)),
                None => None,
            },
            Field::ImageDescription => match &self.user_info.image_description {
                Some(x) => Some(x.clone()),
                None => None,
            },
            Field::Artist => match &self.user_info.artist {
                Some(x) => Some(x.clone()),
                None => None,
            },
            Field::Copyright => match &self.user_info.copyright {
                Some(x) => Some(x.clone()),
                None => None,
            },
            Field::UserComment => match &self.user_info.user_comment {
                Some(x) => Some(x.decoded.clone()),
                None => None,
            },
            Field::MakerNote => match &self.uneditable.maker_note {
                Some(x) => Some(x.clone()),
                None => None,
            },
        }
    }

    /// What applying entry `e` to `a` at moment `now` gives in `b`: the raw table holds `e` under
    /// its key, and the field that key owns is decoded from it; a key outside the schema goes to the store of
    /// unrecognised tags instead.
    #[verifier::opaque]
    pub open spec fn applied(a: ExifEditData, b: ExifEditData, e: TagEntry, now: DateTime) -> bool {
        &&& b.metadata.get(e.key()) == Some(e)
        &&& forall|k: TagKey| k != e.key() ==> #[trigger] b.metadata.get(k) == a.metadata.get(k)
        &&& match field_of(e.key()) {
            Some(f) => {
                &&& Self::unchanged_except(a, b, Self::owned(f))
                &&& b.uneditable.unknown_dict == a.uneditable.unknown_dict
                &&& Self::field_applied(f, e.value, a, b, now)
            },
            None => {
                &&& Self::unchanged_except(a, b, Set::empty())
                &&& b.uneditable.get(e.key()) == Some(payload_text(e.value))
                &&& forall|k: TagKey| k != e.key() ==> #[trigger] b.uneditable.get(k) == a.uneditable.get(k)
            },
        }
    }

    /// What retracting key `k` from `a` gives in `b`: no raw entry under `k`, and the field that
    /// `k` owns (or its unrecognised-tag text) is gone; companions stay.
    pub open spec fn retracted(a: ExifEditData, b: ExifEditData, k: TagKey) -> bool {
        &&& b.metadata.get(k) is None
        &&& forall|k2: TagKey| k2 != k ==> #[trigger] b.metadata.get(k2) == a.metadata.get(k2)
        &&& match field_of(k) {
            Some(f) => {
                &&& Self::unset(b, f)
                &&& Self::unchanged_except(a, b, set![f])
                &&& b.uneditable.unknown_dict == a.uneditable.unknown_dict
            },
            None => {
                &&& Self::unchanged_except(a, b, Set::empty())
                &&& b.uneditable.get(k) is None
                &&& forall|k2: TagKey| k2 != k ==> #[trigger] b.uneditable.get(k2) == a.uneditable.get(k2)
            },
        }
    }

    /// An empty record over an empty table.
    pub fn empty() -> (r: Self)
        ensures
            r.wf(),
            forall|k: TagKey| r.metadata.get(k) is None,
            forall|f: Field| Self::unset(r, f),
            forall|k: TagKey| r.uneditable.get(k) is None,
    {
        ExifEditData {
            metadata: Metadata::new(),
            basic_image_info: BasicImageInfo::new(),
            exif_capture_info: ExifCaptureInfo::new(),
            gps_info: GpsInfo::new(),
            interop_info: InteropInfo::new(),
            thumbnail_info: ThumbnailInfo::new(),
            user_info: UserInfo::new(),
            uneditable: Uneditable::new(),
        }
    }

    /// Writes one tag: the raw table takes the entry under its key, replacing any earlier one,
    /// and the field the key owns is decoded from it. `now` is the moment a GPS date or time
    /// stamp gives its missing companion.
    pub fn update_tag(&mut self, tag: TagEntry, now: &DateTime)
        requires
            old(self).wf(),
        ensures
            final(self).wf(),
            Self::applied(*old(self), *final(self), tag, *now),
    {
        proof {
            reveal(ExifEditData::applied);
        }
        match field_of_key(tag.group, tag.id) {
            Some(f) => {
                self.apply_field(f, &tag.value, now);
            },
            None => {
                let text = payload_string(&tag.value);
                self.uneditable.insert((tag.group, tag.id), text);
            },
        }
        self.metadata.set_tag(tag);
    }

    /// Removes one tag: the raw entry under `(group, id)` and the field it owns are cleared.
    pub fn delete_tag(&mut self, group: ExifTagGroup, id: u16)
        requires
            old(self).wf(),
        ensures
            final(self).wf(),
            Self::retracted(*old(self), *final(self), (group, id)),
    {
        match field_of_key(group, id) {
            Some(f) => {
                self.clear_field(f);
            },
            None => {
                self.uneditable.remove((group, id));
            },
        }
        self.metadata.remove_tag((group, id));
    }

    /// A record built by applying every entry in turn, at moment `now`, to an empty one.
    pub fn new(entries: Vec<TagEntry>, now: &DateTime) -> (r: Self)
        ensures
            r.wf(),
            exists|steps: Seq<ExifEditData>| Self::replayed(steps, entries@, r, *now),
    {
        let ghost all = entries@;
        let n = entries.len();
        let mut rest = entries;
        let mut r = Self::empty();
        let ghost mut steps: Seq<ExifEditData> = seq![r];
        let mut i: usize = 0;
        while rest.len() > 0
            invariant
                0 <= i <= all.len(),
                all.len() == n,
                rest@ == all.skip(i as int),
                r.wf(),
                steps.len() == i + 1,
                steps.last() == r,
                Self::is_empty(steps[0]),
                forall|j: int| 0 <= j < i ==> Self::applied(#[trigger] steps[j], steps[j + 1], all[j], *now),
            decreases rest@.len(),
        {
            let ghost before = rest@;
            let e = rest.remove(0);
            assert(e == all[i as int]);
            assert(rest@ =~= all.skip(i as int + 1));
            let ghost prev = steps;
            r.update_tag(e, now);
            proof {
                steps = steps.push(r);
                assert forall|j: int| 0 <= j < i + 1 implies Self::applied(#[trigger] steps[j], steps[j + 1], all[j], *now) by {
                    if j < i {
                        assert(steps[j] == prev[j] && steps[j + 1] == prev[j + 1]);
                    } else {
                        assert(steps[j] == prev.last());
                    }
                }
            }
            i = i + 1;
        }
        assert(Self::replayed(steps, all, r, *now));
        r
    }

    /// Nothing is set: no raw entry, no field, no unrecognised tag.
    pub open spec fn is_empty(d: ExifEditData) -> bool {
        &&& forall|k: TagKey| d.metadata.get(k) is None
        &&& forall|f: Field| Self::unset(d, f)
        &&& forall|k: TagKey| d.uneditable.get(k) is None
    }

    /// `steps` runs from an empty record through one application per entry to `r`.
    pub open spec fn replayed(steps: Seq<ExifEditData>, entries: Seq<TagEntry>, r: ExifEditData, now: DateTime) -> bool {
        &&& steps.len() == entries.len() + 1
        &&& Self::is_empty(steps[0])
        &&& steps.last() == r
        &&& forall|j: int| 0 <= j < entries.len() ==> Self::applied(#[trigger] steps[j], steps[j + 1], entries[j], now)
    }

}

pub open spec fn bool_text(b: bool) -> Seq<char> {
    if b {
        "true"@
    } else {
        "false"@
    }
}

fn bool_string(b: bool) -> (r: String)
    ensures
        r@ == bool_text(b),
{
    if b {
        String::from_str("true")
    } else {
        String::from_str("false")
    }
}

/// Three rationals that read as a coordinate.
pub open spec fn readable_axis(v: TagValue) -> bool {
    match v {
        TagValue::URational(l) => DMS::readable(l@),
        _ => false,
    }
}

/// At least one unsigned rational.
pub open spec fn has_rational(v: TagValue) -> bool {
    match v {
        TagValue::URational(l) => l@.len() >= 1,
        _ => false,
    }
}

/// Retracting a key right after applying an entry under it leaves no raw entry under that key
/// and no value in the field it owns (nor text among the unrecognised tags); every other raw
/// entry is what it was before the entry was applied.
pub proof fn lemma_apply_then_retract(a: ExifEditData, b: ExifEditData, c: ExifEditData, e: TagEntry, now: DateTime)
    requires
        ExifEditData::applied(a, b, e, now),
        ExifEditData::retracted(b, c, e.key()),
    ensures
        c.metadata.get(e.key()) is None,
        forall|k: TagKey| k != e.key() ==> #[trigger] c.metadata.get(k) == a.metadata.get(k),
        field_of(e.key()) matches Some(f) ==> ExifEditData::unset(c, f),
        field_of(e.key()) is None ==> c.uneditable.get(e.key()) is None,
{
    reveal(ExifEditData::applied);
    assert forall|k: TagKey| k != e.key() implies #[trigger] c.metadata.get(k) == a.metadata.get(k) by {
        assert(c.metadata.get(k) == b.metadata.get(k));
    }
}

/// Applying a readable coordinate axis (latitude or longitude, of the position or of the
/// destination) gives its hemisphere reference the
/// default, north or east, only when that reference has no value; a reference already set stays.
/// An altitude seeds its reference (above sea level) the same way.
pub proof fn lemma_seed_if_absent(a: ExifEditData, b: ExifEditData, e: TagEntry, now: DateTime)
    requires
        ExifEditData::applied(a, b, e, now),
    ensures
        e.key() == (ExifTagGroup::GPS, 2u16) && readable_axis(e.value) ==> seeded(a.gps_info.gps_latitude_ref, b.gps_info.gps_latitude_ref, true),
        e.key() == (ExifTagGroup::GPS, 4u16) && readable_axis(e.value) ==> seeded(a.gps_info.gps_longitude_ref, b.gps_info.gps_longitude_ref, true),
        e.key() == (ExifTagGroup::GPS, 0x14u16) && readable_axis(e.value) ==> seeded(a.gps_info.gps_dest_latitude_ref, b.gps_info.gps_dest_latitude_ref, true),
        e.key() == (ExifTagGroup::GPS, 0x16u16) && readable_axis(e.value) ==> seeded(a.gps_info.gps_dest_longitude_ref, b.gps_info.gps_dest_longitude_ref, true),
        e.key() == (ExifTagGroup::GPS, 6u16) && has_rational(e.value) ==> seeded(a.gps_info.gps_altitude_ref, b.gps_info.gps_altitude_ref, GPSAltitudeRef::AboveSeaLevel),
{
    reveal(ExifEditData::applied);
}

/// The text of a version tag, when its bytes are valid UTF-8.
fn version_text(l: &Vec<u8>) -> (r: Option<String>)
    ensures
        r is Some <==> valid_utf8(l@),
        r matches Some(t) ==> t@ == decode_utf8(l@),
{
    crate::user::utf8_text(l.as_slice())
}

} // verus!
