//! Structured, verified editing of an image's metadata tag table.
mod text;
mod rational;
mod codec;
mod enums;
mod listing;
mod pattern;
mod time;
mod gps;
mod user;
mod tag;
mod vault;
mod render;
mod record;
mod payload;
mod utils;

pub use text::{num_digits, decimal_text, hex_text};
pub use rational::{uR64, iR64, ExifRational, F64};
pub use codec::{YCbCrSubSampling, FileSource, ResolutionUnit, Orientation, ComponentsConfiguration, CFA, GPSAltitudeRef, GPSSpeedRef, InteroperabilityIndex};
pub use pattern::{CFAPattern, load_components_configuration, cfa_str};
pub use time::{ExifTime, TimeOffset, DateTime, Date, Time, parse_datetime, parse_date, parse_time, parse_u16};
pub use gps::{DMS, gps_ref};
pub use user::{UserComment, UserCommentCode, to_hex};
pub use tag::{ExifTagGroup, TagKey, TagValue, TagEntry, Metadata};
pub use vault::{Uneditable, unknown_string_core};
pub use render::{string_number, string_rational, payload_string};
pub use record::{ExifEditData, BasicImageInfo, ExifCaptureInfo, GpsInfo, InteropInfo, ThumbnailInfo, UserInfo, Field};
pub use utils::{some_string, pick_v0, pick_v0_cast, pick_v0_ur64, pick_v0_ir64, vec_ur64_to_f64, VersionAscii, Coordinate};
pub use enums::{Compression, PhotometricInterpretation, ColorSpace, PlanarConfiguration, YCbCrPositioning, GPSStatus, GPSMeasureMode, NorthRef, GPSDestDistanceRef, GPSDifferential, ExposureProgram, ExposureMode, MeteringMode, LightSource, Flash, SensitivityType, SensingMethod, SceneType, FocalPlaneResolutionUnit, WhiteBalance, SceneCaptureType, GainControl, Contrast, Saturation, Sharpness, CustomRendered, CompositeImage};
pub use listing::AllList;
