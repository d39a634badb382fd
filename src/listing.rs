//! The listing interface that selection controls use, for every enumerated value.
use vstd::prelude::*;
use crate::codec::{ResolutionUnit, Orientation, ComponentsConfiguration, CFA, GPSAltitudeRef, GPSSpeedRef, InteroperabilityIndex, YCbCrSubSampling, FileSource};
use crate::enums::{Compression, PhotometricInterpretation, ColorSpace, PlanarConfiguration, YCbCrPositioning, GPSStatus, GPSMeasureMode, NorthRef, GPSDestDistanceRef, GPSDifferential, ExposureProgram, ExposureMode, MeteringMode, LightSource, Flash, SensitivityType, SensingMethod, SceneType, FocalPlaneResolutionUnit, WhiteBalance, SceneCaptureType, GainControl, Contrast, Saturation, Sharpness, CustomRendered, CompositeImage};

verus! {

/// Listing of an enumerated value for selection controls: its position, the value at a
/// position, and every value to choose from.
pub trait AllList: Sized {
    /// Whether the value has a position to report.
    spec fn listable(&self) -> bool;

    fn to_u16(&self) -> u16
        requires
            self.listable(),
    ;

    fn from_u16(value: u16) -> Self;

    fn all(&self) -> Vec<(u16, Self)>;
}

impl AllList for ResolutionUnit {
    open spec fn listable(&self) -> bool {
        self.codes().len() > 0
    }

    fn to_u16(&self) -> u16 {
        ResolutionUnit::to_u16(self)
    }

    fn from_u16(value: u16) -> Self {
        ResolutionUnit::from_u16(value)
    }

    fn all(&self) -> Vec<(u16, Self)> {
        ResolutionUnit::all(self)
    }
}

impl AllList for Orientation {
    open spec fn listable(&self) -> bool {
        self.codes().len() > 0
    }

    fn to_u16(&self) -> u16 {
        Orientation::to_u16(self)
    }

    fn from_u16(value: u16) -> Self {
        Orientation::from_u16(value)
    }

    fn all(&self) -> Vec<(u16, Self)> {
        Orientation::all(self)
    }
}

impl AllList for ComponentsConfiguration {
    open spec fn listable(&self) -> bool {
        self.codes().len() > 0
    }

    fn to_u16(&self) -> u16 {
        ComponentsConfiguration::to_u16(self)
    }

    fn from_u16(value: u16) -> Self {
        ComponentsConfiguration::from_u16(value)
    }

    fn all(&self) -> Vec<(u16, Self)> {
        ComponentsConfiguration::all(self)
    }
}

impl AllList for CFA {
    open spec fn listable(&self) -> bool {
        self.codes().len() > 0
    }

    fn to_u16(&self) -> u16 {
        CFA::to_u16(self)
    }

    fn from_u16(value: u16) -> Self {
        CFA::from_u16(value)
    }

    fn all(&self) -> Vec<(u16, Self)> {
        CFA::all(self)
    }
}

impl AllList for GPSAltitudeRef {
    open spec fn listable(&self) -> bool {
        self.codes().len() > 0
    }

    fn to_u16(&self) -> u16 {
        GPSAltitudeRef::to_u16(self)
    }

    fn from_u16(value: u16) -> Self {
        GPSAltitudeRef::from_u16(value)
    }

    fn all(&self) -> Vec<(u16, Self)> {
        GPSAltitudeRef::all(self)
    }
}

impl AllList for GPSSpeedRef {
    open spec fn listable(&self) -> bool {
        true
    }

    fn to_u16(&self) -> u16 {
        GPSSpeedRef::to_u16(self)
    }

    fn from_u16(value: u16) -> Self {
        GPSSpeedRef::from_u16(value)
    }

    fn all(&self) -> Vec<(u16, Self)> {
        GPSSpeedRef::all(self)
    }
}

impl AllList for InteroperabilityIndex {
    open spec fn listable(&self) -> bool {
        true
    }

    fn to_u16(&self) -> u16 {
        InteroperabilityIndex::to_u16(self)
    }

    fn from_u16(value: u16) -> Self {
        InteroperabilityIndex::from_u16(value)
    }

    fn all(&self) -> Vec<(u16, Self)> {
        InteroperabilityIndex::all(self)
    }
}

impl AllList for YCbCrSubSampling {
    open spec fn listable(&self) -> bool {
        true
    }

    fn to_u16(&self) -> u16 {
        YCbCrSubSampling::to_u16(self)
    }

    fn from_u16(value: u16) -> Self {
        YCbCrSubSampling::from_u16(value)
    }

    fn all(&self) -> Vec<(u16, Self)> {
        YCbCrSubSampling::all(self)
    }
}

impl AllList for FileSource {
    open spec fn listable(&self) -> bool {
        true
    }

    fn to_u16(&self) -> u16 {
        FileSource::to_u16(self)
    }

    fn from_u16(value: u16) -> Self {
        FileSource::from_u16(value)
    }

    fn all(&self) -> Vec<(u16, Self)> {
        FileSource::all(self)
    }
}

impl AllList for Compression {
    open spec fn listable(&self) -> bool {
        self.codes().len() > 0
    }

    fn to_u16(&self) -> u16 {
        Compression::to_u16(self)
    }

    fn from_u16(value: u16) -> Self {
        Compression::from_u16(value)
    }

    fn all(&self) -> Vec<(u16, Self)> {
        Compression::all(self)
    }
}

impl AllList for PhotometricInterpretation {
    open spec fn listable(&self) -> bool {
        self.codes().len() > 0
    }

    fn to_u16(&self) -> u16 {
        PhotometricInterpretation::to_u16(self)
    }

    fn from_u16(value: u16) -> Self {
        PhotometricInterpretation::from_u16(value)
    }

    fn all(&self) -> Vec<(u16, Self)> {
        PhotometricInterpretation::all(self)
    }
}

impl AllList for ColorSpace {
    open spec fn listable(&self) -> bool {
        self.codes().len() > 0
    }

    fn to_u16(&self) -> u16 {
        ColorSpace::to_u16(self)
    }

    fn from_u16(value: u16) -> Self {
        ColorSpace::from_u16(value)
    }

    fn all(&self) -> Vec<(u16, Self)> {
        ColorSpace::all(self)
    }
}

impl AllList for PlanarConfiguration {
    open spec fn listable(&self) -> bool {
        self.codes().len() > 0
    }

    fn to_u16(&self) -> u16 {
        PlanarConfiguration::to_u16(self)
    }

    fn from_u16(value: u16) -> Self {
        PlanarConfiguration::from_u16(value)
    }

    fn all(&self) -> Vec<(u16, Self)> {
        PlanarConfiguration::all(self)
    }
}

impl AllList for YCbCrPositioning {
    open spec fn listable(&self) -> bool {
        self.codes().len() > 0
    }

    fn to_u16(&self) -> u16 {
        YCbCrPositioning::to_u16(self)
    }

    fn from_u16(value: u16) -> Self {
        YCbCrPositioning::from_u16(value)
    }

    fn all(&self) -> Vec<(u16, Self)> {
        YCbCrPositioning::all(self)
    }
}

impl AllList for GPSStatus {
    open spec fn listable(&self) -> bool {
        true
    }

    fn to_u16(&self) -> u16 {
        GPSStatus::to_u16(self)
    }

    fn from_u16(value: u16) -> Self {
        GPSStatus::from_u16(value)
    }

    fn all(&self) -> Vec<(u16, Self)> {
        GPSStatus::all(self)
    }
}

impl AllList for GPSMeasureMode {
    open spec fn listable(&self) -> bool {
        true
    }

    fn to_u16(&self) -> u16 {
        GPSMeasureMode::to_u16(self)
    }

    fn from_u16(value: u16) -> Self {
        GPSMeasureMode::from_u16(value)
    }

    fn all(&self) -> Vec<(u16, Self)> {
        GPSMeasureMode::all(self)
    }
}

impl AllList for NorthRef {
    open spec fn listable(&self) -> bool {
        true
    }

    fn to_u16(&self) -> u16 {
        NorthRef::to_u16(self)
    }

    fn from_u16(value: u16) -> Self {
        NorthRef::from_u16(value)
    }

    fn all(&self) -> Vec<(u16, Self)> {
        NorthRef::all(self)
    }
}

impl AllList for GPSDestDistanceRef {
    open spec fn listable(&self) -> bool {
        true
    }

    fn to_u16(&self) -> u16 {
        GPSDestDistanceRef::to_u16(self)
    }

    fn from_u16(value: u16) -> Self {
        GPSDestDistanceRef::from_u16(value)
    }

    fn all(&self) -> Vec<(u16, Self)> {
        GPSDestDistanceRef::all(self)
    }
}

impl AllList for GPSDifferential {
    open spec fn listable(&self) -> bool {
        self.codes().len() > 0
    }

    fn to_u16(&self) -> u16 {
        GPSDifferential::to_u16(self)
    }

    fn from_u16(value: u16) -> Self {
        GPSDifferential::from_u16(value)
    }

    fn all(&self) -> Vec<(u16, Self)> {
        GPSDifferential::all(self)
    }
}

impl AllList for ExposureProgram {
    open spec fn listable(&self) -> bool {
        self.codes().len() > 0
    }

    fn to_u16(&self) -> u16 {
        ExposureProgram::to_u16(self)
    }

    fn from_u16(value: u16) -> Self {
        ExposureProgram::from_u16(value)
    }

    fn all(&self) -> Vec<(u16, Self)> {
        ExposureProgram::all(self)
    }
}

impl AllList for ExposureMode {
    open spec fn listable(&self) -> bool {
        self.codes().len() > 0
    }

    fn to_u16(&self) -> u16 {
        ExposureMode::to_u16(self)
    }

    fn from_u16(value: u16) -> Self {
        ExposureMode::from_u16(value)
    }

    fn all(&self) -> Vec<(u16, Self)> {
        ExposureMode::all(self)
    }
}

impl AllList for MeteringMode {
    open spec fn listable(&self) -> bool {
        self.codes().len() > 0
    }

    fn to_u16(&self) -> u16 {
        MeteringMode::to_u16(self)
    }

    fn from_u16(value: u16) -> Self {
        MeteringMode::from_u16(value)
    }

    fn all(&self) -> Vec<(u16, Self)> {
        MeteringMode::all(self)
    }
}

impl AllList for LightSource {
    open spec fn listable(&self) -> bool {
        self.codes().len() > 0
    }

    fn to_u16(&self) -> u16 {
        LightSource::to_u16(self)
    }

    fn from_u16(value: u16) -> Self {
        LightSource::from_u16(value)
    }

    fn all(&self) -> Vec<(u16, Self)> {
        LightSource::all(self)
    }
}

impl AllList for Flash {
    open spec fn listable(&self) -> bool {
        self.codes().len() > 0
    }

    fn to_u16(&self) -> u16 {
        Flash::to_u16(self)
    }

    fn from_u16(value: u16) -> Self {
        Flash::from_u16(value)
    }

    fn all(&self) -> Vec<(u16, Self)> {
        Flash::all(self)
    }
}

impl AllList for SensitivityType {
    open spec fn listable(&self) -> bool {
        self.codes().len() > 0
    }

    fn to_u16(&self) -> u16 {
        SensitivityType::to_u16(self)
    }

    fn from_u16(value: u16) -> Self {
        SensitivityType::from_u16(value)
    }

    fn all(&self) -> Vec<(u16, Self)> {
        SensitivityType::all(self)
    }
}

impl AllList for SensingMethod {
    open spec fn listable(&self) -> bool {
        self.codes().len() > 0
    }

    fn to_u16(&self) -> u16 {
        SensingMethod::to_u16(self)
    }

    fn from_u16(value: u16) -> Self {
        SensingMethod::from_u16(value)
    }

    fn all(&self) -> Vec<(u16, Self)> {
        SensingMethod::all(self)
    }
}

impl AllList for SceneType {
    open spec fn listable(&self) -> bool {
        self.codes().len() > 0
    }

    fn to_u16(&self) -> u16 {
        SceneType::to_u16(self)
    }

    fn from_u16(value: u16) -> Self {
        SceneType::from_u16(value)
    }

    fn all(&self) -> Vec<(u16, Self)> {
        SceneType::all(self)
    }
}

impl AllList for FocalPlaneResolutionUnit {
    open spec fn listable(&self) -> bool {
        self.codes().len() > 0
    }

    fn to_u16(&self) -> u16 {
        FocalPlaneResolutionUnit::to_u16(self)
    }

    fn from_u16(value: u16) -> Self {
        FocalPlaneResolutionUnit::from_u16(value)
    }

    fn all(&self) -> Vec<(u16, Self)> {
        FocalPlaneResolutionUnit::all(self)
    }
}

impl AllList for WhiteBalance {
    open spec fn listable(&self) -> bool {
        self.codes().len() > 0
    }

    fn to_u16(&self) -> u16 {
        WhiteBalance::to_u16(self)
    }

    fn from_u16(value: u16) -> Self {
        WhiteBalance::from_u16(value)
    }

    fn all(&self) -> Vec<(u16, Self)> {
        WhiteBalance::all(self)
    }
}

impl AllList for SceneCaptureType {
    open spec fn listable(&self) -> bool {
        self.codes().len() > 0
    }

    fn to_u16(&self) -> u16 {
        SceneCaptureType::to_u16(self)
    }

    fn from_u16(value: u16) -> Self {
        SceneCaptureType::from_u16(value)
    }

    fn all(&self) -> Vec<(u16, Self)> {
        SceneCaptureType::all(self)
    }
}

impl AllList for GainControl {
    open spec fn listable(&self) -> bool {
        self.codes().len() > 0
    }

    fn to_u16(&self) -> u16 {
        GainControl::to_u16(self)
    }

    fn from_u16(value: u16) -> Self {
        GainControl::from_u16(value)
    }

    fn all(&self) -> Vec<(u16, Self)> {
        GainControl::all(self)
    }
}

impl AllList for Contrast {
    open spec fn listable(&self) -> bool {
        self.codes().len() > 0
    }

    fn to_u16(&self) -> u16 {
        Contrast::to_u16(self)
    }

    fn from_u16(value: u16) -> Self {
        Contrast::from_u16(value)
    }

    fn all(&self) -> Vec<(u16, Self)> {
        Contrast::all(self)
    }
}

impl AllList for Saturation {
    open spec fn listable(&self) -> bool {
        self.codes().len() > 0
    }

    fn to_u16(&self) -> u16 {
        Saturation::to_u16(self)
    }

    fn from_u16(value: u16) -> Self {
        Saturation::from_u16(value)
    }

    fn all(&self) -> Vec<(u16, Self)> {
        Saturation::all(self)
    }
}

impl AllList for Sharpness {
    open spec fn listable(&self) -> bool {
        self.codes().len() > 0
    }

    fn to_u16(&self) -> u16 {
        Sharpness::to_u16(self)
    }

    fn from_u16(value: u16) -> Self {
        Sharpness::from_u16(value)
    }

    fn all(&self) -> Vec<(u16, Self)> {
        Sharpness::all(self)
    }
}

impl AllList for CustomRendered {
    open spec fn listable(&self) -> bool {
        self.codes().len() > 0
    }

    fn to_u16(&self) -> u16 {
        CustomRendered::to_u16(self)
    }

    fn from_u16(value: u16) -> Self {
        CustomRendered::from_u16(value)
    }

    fn all(&self) -> Vec<(u16, Self)> {
        CustomRendered::all(self)
    }
}

impl AllList for CompositeImage {
    open spec fn listable(&self) -> bool {
        self.codes().len() > 0
    }

    fn to_u16(&self) -> u16 {
        CompositeImage::to_u16(self)
    }

    fn from_u16(value: u16) -> Self {
        CompositeImage::from_u16(value)
    }

    fn all(&self) -> Vec<(u16, Self)> {
        CompositeImage::all(self)
    }
}

} // verus!
