//! The remaining enumerated values of the schema, in the two coded families.
use vstd::prelude::*;
use vstd::string::StringExecFns;
use crate::codec::{copy_u16s, widen_bytes};
use crate::text::{list_dec, list_text, str_eq, widen_u16s};

verus! {

/// Compression scheme of the image data.
#[allow(non_camel_case_types)]
#[derive(Clone, Debug, PartialEq, Eq)]
pub enum Compression {
    Uncompressed,
    CCITT1D,
    T4Group3Fax,
    T6Group4Fax,
    LZW,
    JPEGOldStyle,
    JPEG,
    AdobeDeflate,
    JBIGBW,
    JBIGColor,
    JPEG_,
    Kodak262,
    Next,
    SonyARWCompressed,
    PackedRAW,
    SamsungSRWCompressed,
    CCIRLEW,
    SamsungSRWCompressed2,
    PackBits,
    Thunderscan,
    KodakKDCCompressed,
    IT8CTPAD,
    IT8LW,
    IT8MP,
    IT8BL,
    PixarFilm,
    PixarLog,
    Deflate,
    DCS,
    AperioJPEG2000YCbCr,
    AperioJPEG2000RGB,
    JBIG,
    SGILog,
    SGILog24,
    JPEG2000,
    NikonNEFCompressed,
    JBIG2TIFFFX,
    MicrosoftDocumentImagingMDIBinaryLevelCodec,
    MicrosoftDocumentImagingMDIProgressiveTransformCodec,
    MicrosoftDocumentImagingMDIVector,
    ESRILerc,
    LossyJPEG,
    LZMA2,
    ZstdOld,
    WebPOld,
    PNG,
    JPEGXR,
    Zstd,
    WebP,
    JPEGXLOld,
    JPEGXL,
    KodakDCRCompressed,
    PentaxPEFCompressed,
    UnknownValue(Vec<u16>),
}

impl Compression {
    /// The named value a single code stands for, if any.
    pub open spec fn named_of(c: u16) -> Option<Compression> {
        if c == 1 {
            Some(Compression::Uncompressed)
        } else if c == 2 {
            Some(Compression::CCITT1D)
        } else if c == 3 {
            Some(Compression::T4Group3Fax)
        } else if c == 4 {
            Some(Compression::T6Group4Fax)
        } else if c == 5 {
            Some(Compression::LZW)
        } else if c == 6 {
            Some(Compression::JPEGOldStyle)
        } else if c == 7 {
            Some(Compression::JPEG)
        } else if c == 8 {
            Some(Compression::AdobeDeflate)
        } else if c == 9 {
            Some(Compression::JBIGBW)
        } else if c == 10 {
            Some(Compression::JBIGColor)
        } else if c == 99 {
            Some(Compression::JPEG_)
        } else if c == 262 {
            Some(Compression::Kodak262)
        } else if c == 32766 {
            Some(Compression::Next)
        } else if c == 32767 {
            Some(Compression::SonyARWCompressed)
        } else if c == 32769 {
            Some(Compression::PackedRAW)
        } else if c == 32770 {
            Some(Compression::SamsungSRWCompressed)
        } else if c == 32771 {
            Some(Compression::CCIRLEW)
        } else if c == 32772 {
            Some(Compression::SamsungSRWCompressed2)
        } else if c == 32773 {
            Some(Compression::PackBits)
        } else if c == 32809 {
            Some(Compression::Thunderscan)
        } else if c == 32867 {
            Some(Compression::KodakKDCCompressed)
        } else if c == 32895 {
            Some(Compression::IT8CTPAD)
        } else if c == 32896 {
            Some(Compression::IT8LW)
        } else if c == 32897 {
            Some(Compression::IT8MP)
        } else if c == 32898 {
            Some(Compression::IT8BL)
        } else if c == 32908 {
            Some(Compression::PixarFilm)
        } else if c == 32909 {
            Some(Compression::PixarLog)
        } else if c == 32946 {
            Some(Compression::Deflate)
        } else if c == 32947 {
            Some(Compression::DCS)
        } else if c == 33003 {
            Some(Compression::AperioJPEG2000YCbCr)
        } else if c == 33005 {
            Some(Compression::AperioJPEG2000RGB)
        } else if c == 34661 {
            Some(Compression::JBIG)
        } else if c == 34676 {
            Some(Compression::SGILog)
        } else if c == 34677 {
            Some(Compression::SGILog24)
        } else if c == 34712 {
            Some(Compression::JPEG2000)
        } else if c == 34713 {
            Some(Compression::NikonNEFCompressed)
        } else if c == 34715 {
            Some(Compression::JBIG2TIFFFX)
        } else if c == 34718 {
            Some(Compression::MicrosoftDocumentImagingMDIBinaryLevelCodec)
        } else if c == 34719 {
            Some(Compression::MicrosoftDocumentImagingMDIProgressiveTransformCodec)
        } else if c == 34720 {
            Some(Compression::MicrosoftDocumentImagingMDIVector)
        } else if c == 34887 {
            Some(Compression::ESRILerc)
        } else if c == 34892 {
            Some(Compression::LossyJPEG)
        } else if c == 34925 {
            Some(Compression::LZMA2)
        } else if c == 34926 {
            Some(Compression::ZstdOld)
        } else if c == 34927 {
            Some(Compression::WebPOld)
        } else if c == 34933 {
            Some(Compression::PNG)
        } else if c == 34934 {
            Some(Compression::JPEGXR)
        } else if c == 50000 {
            Some(Compression::Zstd)
        } else if c == 50001 {
            Some(Compression::WebP)
        } else if c == 50002 {
            Some(Compression::JPEGXLOld)
        } else if c == 52546 {
            Some(Compression::JPEGXL)
        } else if c == 65000 {
            Some(Compression::KodakDCRCompressed)
        } else if c == 65535 {
            Some(Compression::PentaxPEFCompressed)
        } else {
            None
        }
    }

    /// `r` is what decoding the raw codes `v` gives: the named value for one known code, an
    /// unknown value holding `v` otherwise.
    pub open spec fn decodes(v: Seq<u16>, r: Self) -> bool {
        &&& r.codes() == v
        &&& v.len() == 1 && Self::named_of(v[0]) is Some ==> Some(r) == Self::named_of(v[0])
        &&& !(v.len() == 1 && Self::named_of(v[0]) is Some) ==> r is UnknownValue
    }

    /// The raw codes of the value.
    pub open spec fn codes(&self) -> Seq<u16> {
        match self {
            Compression::Uncompressed => seq![1u16],
            Compression::CCITT1D => seq![2u16],
            Compression::T4Group3Fax => seq![3u16],
            Compression::T6Group4Fax => seq![4u16],
            Compression::LZW => seq![5u16],
            Compression::JPEGOldStyle => seq![6u16],
            Compression::JPEG => seq![7u16],
            Compression::AdobeDeflate => seq![8u16],
            Compression::JBIGBW => seq![9u16],
            Compression::JBIGColor => seq![10u16],
            Compression::JPEG_ => seq![99u16],
            Compression::Kodak262 => seq![262u16],
            Compression::Next => seq![32766u16],
            Compression::SonyARWCompressed => seq![32767u16],
            Compression::PackedRAW => seq![32769u16],
            Compression::SamsungSRWCompressed => seq![32770u16],
            Compression::CCIRLEW => seq![32771u16],
            Compression::SamsungSRWCompressed2 => seq![32772u16],
            Compression::PackBits => seq![32773u16],
            Compression::Thunderscan => seq![32809u16],
            Compression::KodakKDCCompressed => seq![32867u16],
            Compression::IT8CTPAD => seq![32895u16],
            Compression::IT8LW => seq![32896u16],
            Compression::IT8MP => seq![32897u16],
            Compression::IT8BL => seq![32898u16],
            Compression::PixarFilm => seq![32908u16],
            Compression::PixarLog => seq![32909u16],
            Compression::Deflate => seq![32946u16],
            Compression::DCS => seq![32947u16],
            Compression::AperioJPEG2000YCbCr => seq![33003u16],
            Compression::AperioJPEG2000RGB => seq![33005u16],
            Compression::JBIG => seq![34661u16],
            Compression::SGILog => seq![34676u16],
            Compression::SGILog24 => seq![34677u16],
            Compression::JPEG2000 => seq![34712u16],
            Compression::NikonNEFCompressed => seq![34713u16],
            Compression::JBIG2TIFFFX => seq![34715u16],
            Compression::MicrosoftDocumentImagingMDIBinaryLevelCodec => seq![34718u16],
            Compression::MicrosoftDocumentImagingMDIProgressiveTransformCodec => seq![34719u16],
            Compression::MicrosoftDocumentImagingMDIVector => seq![34720u16],
            Compression::ESRILerc => seq![34887u16],
            Compression::LossyJPEG => seq![34892u16],
            Compression::LZMA2 => seq![34925u16],
            Compression::ZstdOld => seq![34926u16],
            Compression::WebPOld => seq![34927u16],
            Compression::PNG => seq![34933u16],
            Compression::JPEGXR => seq![34934u16],
            Compression::Zstd => seq![50000u16],
            Compression::WebP => seq![50001u16],
            Compression::JPEGXLOld => seq![50002u16],
            Compression::JPEGXL => seq![52546u16],
            Compression::KodakDCRCompressed => seq![65000u16],
            Compression::PentaxPEFCompressed => seq![65535u16],
            Compression::UnknownValue(v) => v@,
        }
    }

    /// The codes of the named values, in listing order.
    pub open spec fn listed() -> Seq<u16> {
        seq![1u16, 2u16, 3u16, 4u16, 5u16, 6u16, 7u16, 8u16, 9u16, 10u16, 99u16, 262u16, 32766u16, 32767u16, 32769u16, 32770u16, 32771u16, 32772u16, 32773u16, 32809u16, 32867u16, 32895u16, 32896u16, 32897u16, 32898u16, 32908u16, 32909u16, 32946u16, 32947u16, 33003u16, 33005u16, 34661u16, 34676u16, 34677u16, 34712u16, 34713u16, 34715u16, 34718u16, 34719u16, 34720u16, 34887u16, 34892u16, 34925u16, 34926u16, 34927u16, 34933u16, 34934u16, 50000u16, 50001u16, 50002u16, 52546u16, 65000u16, 65535u16]
    }

    /// Display name of the value.
    pub open spec fn text(&self) -> Seq<char> {
        match self {
            Compression::Uncompressed => "Uncompressed"@,
            Compression::CCITT1D => "CCITT1D"@,
            Compression::T4Group3Fax => "T4Group3Fax"@,
            Compression::T6Group4Fax => "T6Group4Fax"@,
            Compression::LZW => "LZW"@,
            Compression::JPEGOldStyle => "JPEGOldStyle"@,
            Compression::JPEG => "JPEG"@,
            Compression::AdobeDeflate => "AdobeDeflate"@,
            Compression::JBIGBW => "JBIGBW"@,
            Compression::JBIGColor => "JBIGColor"@,
            Compression::JPEG_ => "JPEG_"@,
            Compression::Kodak262 => "Kodak262"@,
            Compression::Next => "Next"@,
            Compression::SonyARWCompressed => "SonyARWCompressed"@,
            Compression::PackedRAW => "PackedRAW"@,
            Compression::SamsungSRWCompressed => "SamsungSRWCompressed"@,
            Compression::CCIRLEW => "CCIRLEW"@,
            Compression::SamsungSRWCompressed2 => "SamsungSRWCompressed2"@,
            Compression::PackBits => "PackBits"@,
            Compression::Thunderscan => "Thunderscan"@,
            Compression::KodakKDCCompressed => "KodakKDCCompressed"@,
            Compression::IT8CTPAD => "IT8CTPAD"@,
            Compression::IT8LW => "IT8LW"@,
            Compression::IT8MP => "IT8MP"@,
            Compression::IT8BL => "IT8BL"@,
            Compression::PixarFilm => "PixarFilm"@,
            Compression::PixarLog => "PixarLog"@,
            Compression::Deflate => "Deflate"@,
            Compression::DCS => "DCS"@,
            Compression::AperioJPEG2000YCbCr => "AperioJPEG2000YCbCr"@,
            Compression::AperioJPEG2000RGB => "AperioJPEG2000RGB"@,
            Compression::JBIG => "JBIG"@,
            Compression::SGILog => "SGILog"@,
            Compression::SGILog24 => "SGILog24"@,
            Compression::JPEG2000 => "JPEG2000"@,
            Compression::NikonNEFCompressed => "NikonNEFCompressed"@,
            Compression::JBIG2TIFFFX => "JBIG2TIFFFX"@,
            Compression::MicrosoftDocumentImagingMDIBinaryLevelCodec => "MicrosoftDocumentImagingMDIBinaryLevelCodec"@,
            Compression::MicrosoftDocumentImagingMDIProgressiveTransformCodec => "MicrosoftDocumentImagingMDIProgressiveTransformCodec"@,
            Compression::MicrosoftDocumentImagingMDIVector => "MicrosoftDocumentImagingMDIVector"@,
            Compression::ESRILerc => "ESRILerc"@,
            Compression::LossyJPEG => "LossyJPEG"@,
            Compression::LZMA2 => "LZMA2"@,
            Compression::ZstdOld => "ZstdOld"@,
            Compression::WebPOld => "WebPOld"@,
            Compression::PNG => "PNG"@,
            Compression::JPEGXR => "JPEGXR"@,
            Compression::Zstd => "Zstd"@,
            Compression::WebP => "WebP"@,
            Compression::JPEGXLOld => "JPEGXLOld"@,
            Compression::JPEGXL => "JPEGXL"@,
            Compression::KodakDCRCompressed => "KodakDCRCompressed"@,
            Compression::PentaxPEFCompressed => "PentaxPEFCompressed"@,
            Compression::UnknownValue(v) => "UnknownValue"@ + list_dec(v@.map_values(|x: u16| x as int)),
        }
    }

    pub fn to_vec(&self) -> (r: Vec<u16>)
        ensures
            r@ == self.codes(),
    {
        match self {
            Compression::Uncompressed => vec![1],
            Compression::CCITT1D => vec![2],
            Compression::T4Group3Fax => vec![3],
            Compression::T6Group4Fax => vec![4],
            Compression::LZW => vec![5],
            Compression::JPEGOldStyle => vec![6],
            Compression::JPEG => vec![7],
            Compression::AdobeDeflate => vec![8],
            Compression::JBIGBW => vec![9],
            Compression::JBIGColor => vec![10],
            Compression::JPEG_ => vec![99],
            Compression::Kodak262 => vec![262],
            Compression::Next => vec![32766],
            Compression::SonyARWCompressed => vec![32767],
            Compression::PackedRAW => vec![32769],
            Compression::SamsungSRWCompressed => vec![32770],
            Compression::CCIRLEW => vec![32771],
            Compression::SamsungSRWCompressed2 => vec![32772],
            Compression::PackBits => vec![32773],
            Compression::Thunderscan => vec![32809],
            Compression::KodakKDCCompressed => vec![32867],
            Compression::IT8CTPAD => vec![32895],
            Compression::IT8LW => vec![32896],
            Compression::IT8MP => vec![32897],
            Compression::IT8BL => vec![32898],
            Compression::PixarFilm => vec![32908],
            Compression::PixarLog => vec![32909],
            Compression::Deflate => vec![32946],
            Compression::DCS => vec![32947],
            Compression::AperioJPEG2000YCbCr => vec![33003],
            Compression::AperioJPEG2000RGB => vec![33005],
            Compression::JBIG => vec![34661],
            Compression::SGILog => vec![34676],
            Compression::SGILog24 => vec![34677],
            Compression::JPEG2000 => vec![34712],
            Compression::NikonNEFCompressed => vec![34713],
            Compression::JBIG2TIFFFX => vec![34715],
            Compression::MicrosoftDocumentImagingMDIBinaryLevelCodec => vec![34718],
            Compression::MicrosoftDocumentImagingMDIProgressiveTransformCodec => vec![34719],
            Compression::MicrosoftDocumentImagingMDIVector => vec![34720],
            Compression::ESRILerc => vec![34887],
            Compression::LossyJPEG => vec![34892],
            Compression::LZMA2 => vec![34925],
            Compression::ZstdOld => vec![34926],
            Compression::WebPOld => vec![34927],
            Compression::PNG => vec![34933],
            Compression::JPEGXR => vec![34934],
            Compression::Zstd => vec![50000],
            Compression::WebP => vec![50001],
            Compression::JPEGXLOld => vec![50002],
            Compression::JPEGXL => vec![52546],
            Compression::KodakDCRCompressed => vec![65000],
            Compression::PentaxPEFCompressed => vec![65535],
            Compression::UnknownValue(v) => copy_u16s(v.as_slice()),
        }
    }

    /// Decodes raw codes; anything but one known code is kept as it is.
    pub fn from_vec(v: &[u16]) -> (r: Self)
        ensures
            r.codes() == v@,
            v@.len() == 1 && Self::named_of(v@[0]) is Some ==> Some(r) == Self::named_of(v@[0]),
            !(v@.len() == 1 && Self::named_of(v@[0]) is Some) ==> r is UnknownValue,
    {
        if v.len() != 1 {
            return Compression::UnknownValue(copy_u16s(v));
        }
        match v[0] {
            1 => Compression::Uncompressed,
            2 => Compression::CCITT1D,
            3 => Compression::T4Group3Fax,
            4 => Compression::T6Group4Fax,
            5 => Compression::LZW,
            6 => Compression::JPEGOldStyle,
            7 => Compression::JPEG,
            8 => Compression::AdobeDeflate,
            9 => Compression::JBIGBW,
            10 => Compression::JBIGColor,
            99 => Compression::JPEG_,
            262 => Compression::Kodak262,
            32766 => Compression::Next,
            32767 => Compression::SonyARWCompressed,
            32769 => Compression::PackedRAW,
            32770 => Compression::SamsungSRWCompressed,
            32771 => Compression::CCIRLEW,
            32772 => Compression::SamsungSRWCompressed2,
            32773 => Compression::PackBits,
            32809 => Compression::Thunderscan,
            32867 => Compression::KodakKDCCompressed,
            32895 => Compression::IT8CTPAD,
            32896 => Compression::IT8LW,
            32897 => Compression::IT8MP,
            32898 => Compression::IT8BL,
            32908 => Compression::PixarFilm,
            32909 => Compression::PixarLog,
            32946 => Compression::Deflate,
            32947 => Compression::DCS,
            33003 => Compression::AperioJPEG2000YCbCr,
            33005 => Compression::AperioJPEG2000RGB,
            34661 => Compression::JBIG,
            34676 => Compression::SGILog,
            34677 => Compression::SGILog24,
            34712 => Compression::JPEG2000,
            34713 => Compression::NikonNEFCompressed,
            34715 => Compression::JBIG2TIFFFX,
            34718 => Compression::MicrosoftDocumentImagingMDIBinaryLevelCodec,
            34719 => Compression::MicrosoftDocumentImagingMDIProgressiveTransformCodec,
            34720 => Compression::MicrosoftDocumentImagingMDIVector,
            34887 => Compression::ESRILerc,
            34892 => Compression::LossyJPEG,
            34925 => Compression::LZMA2,
            34926 => Compression::ZstdOld,
            34927 => Compression::WebPOld,
            34933 => Compression::PNG,
            34934 => Compression::JPEGXR,
            50000 => Compression::Zstd,
            50001 => Compression::WebP,
            50002 => Compression::JPEGXLOld,
            52546 => Compression::JPEGXL,
            65000 => Compression::KodakDCRCompressed,
            65535 => Compression::PentaxPEFCompressed,
            _ => Compression::UnknownValue(copy_u16s(v)),
        }
    }

    /// Decodes codes stored one per byte.
    pub fn from_u8_vec(v: &[u8]) -> (r: Self)
        ensures
            r.codes() == v@.map_values(|b: u8| b as u16),
            v@.len() == 1 && Self::named_of(v@[0] as u16) is Some ==> Some(r) == Self::named_of(v@[0] as u16),
            !(v@.len() == 1 && Self::named_of(v@[0] as u16) is Some) ==> r is UnknownValue,
    {
        let w = widen_bytes(v);
        Self::from_vec(w.as_slice())
    }

    /// What `from_vec` gives for the codes `c`, as far as it is fixed.
    pub fn to_string(&self) -> (r: String)
        ensures
            r@ == self.text(),
    {
        match self {
            Compression::Uncompressed => String::from_str("Uncompressed"),
            Compression::CCITT1D => String::from_str("CCITT1D"),
            Compression::T4Group3Fax => String::from_str("T4Group3Fax"),
            Compression::T6Group4Fax => String::from_str("T6Group4Fax"),
            Compression::LZW => String::from_str("LZW"),
            Compression::JPEGOldStyle => String::from_str("JPEGOldStyle"),
            Compression::JPEG => String::from_str("JPEG"),
            Compression::AdobeDeflate => String::from_str("AdobeDeflate"),
            Compression::JBIGBW => String::from_str("JBIGBW"),
            Compression::JBIGColor => String::from_str("JBIGColor"),
            Compression::JPEG_ => String::from_str("JPEG_"),
            Compression::Kodak262 => String::from_str("Kodak262"),
            Compression::Next => String::from_str("Next"),
            Compression::SonyARWCompressed => String::from_str("SonyARWCompressed"),
            Compression::PackedRAW => String::from_str("PackedRAW"),
            Compression::SamsungSRWCompressed => String::from_str("SamsungSRWCompressed"),
            Compression::CCIRLEW => String::from_str("CCIRLEW"),
            Compression::SamsungSRWCompressed2 => String::from_str("SamsungSRWCompressed2"),
            Compression::PackBits => String::from_str("PackBits"),
            Compression::Thunderscan => String::from_str("Thunderscan"),
            Compression::KodakKDCCompressed => String::from_str("KodakKDCCompressed"),
            Compression::IT8CTPAD => String::from_str("IT8CTPAD"),
            Compression::IT8LW => String::from_str("IT8LW"),
            Compression::IT8MP => String::from_str("IT8MP"),
            Compression::IT8BL => String::from_str("IT8BL"),
            Compression::PixarFilm => String::from_str("PixarFilm"),
            Compression::PixarLog => String::from_str("PixarLog"),
            Compression::Deflate => String::from_str("Deflate"),
            Compression::DCS => String::from_str("DCS"),
            Compression::AperioJPEG2000YCbCr => String::from_str("AperioJPEG2000YCbCr"),
            Compression::AperioJPEG2000RGB => String::from_str("AperioJPEG2000RGB"),
            Compression::JBIG => String::from_str("JBIG"),
            Compression::SGILog => String::from_str("SGILog"),
            Compression::SGILog24 => String::from_str("SGILog24"),
            Compression::JPEG2000 => String::from_str("JPEG2000"),
            Compression::NikonNEFCompressed => String::from_str("NikonNEFCompressed"),
            Compression::JBIG2TIFFFX => String::from_str("JBIG2TIFFFX"),
            Compression::MicrosoftDocumentImagingMDIBinaryLevelCodec => String::from_str("MicrosoftDocumentImagingMDIBinaryLevelCodec"),
            Compression::MicrosoftDocumentImagingMDIProgressiveTransformCodec => String::from_str("MicrosoftDocumentImagingMDIProgressiveTransformCodec"),
            Compression::MicrosoftDocumentImagingMDIVector => String::from_str("MicrosoftDocumentImagingMDIVector"),
            Compression::ESRILerc => String::from_str("ESRILerc"),
            Compression::LossyJPEG => String::from_str("LossyJPEG"),
            Compression::LZMA2 => String::from_str("LZMA2"),
            Compression::ZstdOld => String::from_str("ZstdOld"),
            Compression::WebPOld => String::from_str("WebPOld"),
            Compression::PNG => String::from_str("PNG"),
            Compression::JPEGXR => String::from_str("JPEGXR"),
            Compression::Zstd => String::from_str("Zstd"),
            Compression::WebP => String::from_str("WebP"),
            Compression::JPEGXLOld => String::from_str("JPEGXLOld"),
            Compression::JPEGXL => String::from_str("JPEGXL"),
            Compression::KodakDCRCompressed => String::from_str("KodakDCRCompressed"),
            Compression::PentaxPEFCompressed => String::from_str("PentaxPEFCompressed"),
            Compression::UnknownValue(v) => {
                let mut s = String::from_str("UnknownValue");
                let w = widen_u16s(v.as_slice());
                let t = list_text(w.as_slice());
                s.append(t.as_str());
                s
            }
        }
    }

    /// The value used when nothing is known yet.
    pub fn unknown() -> (r: Self)
        ensures
            r is UnknownValue,
            r.codes() == seq![0u16],
    {
        Compression::UnknownValue(vec![0])
    }

    /// The first raw code.
    pub fn to_u16(&self) -> (r: u16)
        requires
            self.codes().len() > 0,
        ensures
            r == self.codes()[0],
    {
        let v = self.to_vec();
        v[0]
    }

    pub fn from_u16(value: u16) -> (r: Self)
        ensures
            r.codes() == seq![value],
            Self::named_of(value) is Some ==> Some(r) == Self::named_of(value),
            Self::named_of(value) is None ==> r is UnknownValue,
    {
        let v: Vec<u16> = vec![value];
        proof {
            assert(v@ =~= seq![value]);
        }
        Self::from_vec(v.as_slice())
    }

    /// Every named value with its code, and the value itself at the end when it is unknown.
    pub fn all(&self) -> (r: Vec<(u16, Self)>)
        ensures
            r@.len() == (if self is UnknownValue { 54nat } else { 53nat }),
            forall|i: int| 0 <= i < 53 ==> r@[i].0 == Self::listed()[i] && Self::named_of(r@[i].0) == Some(r@[i].1),
            self is UnknownValue ==> r@[53].0 == 0 && r@[53].1 is UnknownValue && r@[53].1.codes() == self.codes(),
    {
        let mut r: Vec<(u16, Self)> = Vec::new();
        r.push((1, Compression::Uncompressed));
        r.push((2, Compression::CCITT1D));
        r.push((3, Compression::T4Group3Fax));
        r.push((4, Compression::T6Group4Fax));
        r.push((5, Compression::LZW));
        r.push((6, Compression::JPEGOldStyle));
        r.push((7, Compression::JPEG));
        r.push((8, Compression::AdobeDeflate));
        r.push((9, Compression::JBIGBW));
        r.push((10, Compression::JBIGColor));
        r.push((99, Compression::JPEG_));
        r.push((262, Compression::Kodak262));
        r.push((32766, Compression::Next));
        r.push((32767, Compression::SonyARWCompressed));
        r.push((32769, Compression::PackedRAW));
        r.push((32770, Compression::SamsungSRWCompressed));
        r.push((32771, Compression::CCIRLEW));
        r.push((32772, Compression::SamsungSRWCompressed2));
        r.push((32773, Compression::PackBits));
        r.push((32809, Compression::Thunderscan));
        r.push((32867, Compression::KodakKDCCompressed));
        r.push((32895, Compression::IT8CTPAD));
        r.push((32896, Compression::IT8LW));
        r.push((32897, Compression::IT8MP));
        r.push((32898, Compression::IT8BL));
        r.push((32908, Compression::PixarFilm));
        r.push((32909, Compression::PixarLog));
        r.push((32946, Compression::Deflate));
        r.push((32947, Compression::DCS));
        r.push((33003, Compression::AperioJPEG2000YCbCr));
        r.push((33005, Compression::AperioJPEG2000RGB));
        r.push((34661, Compression::JBIG));
        r.push((34676, Compression::SGILog));
        r.push((34677, Compression::SGILog24));
        r.push((34712, Compression::JPEG2000));
        r.push((34713, Compression::NikonNEFCompressed));
        r.push((34715, Compression::JBIG2TIFFFX));
        r.push((34718, Compression::MicrosoftDocumentImagingMDIBinaryLevelCodec));
        r.push((34719, Compression::MicrosoftDocumentImagingMDIProgressiveTransformCodec));
        r.push((34720, Compression::MicrosoftDocumentImagingMDIVector));
        r.push((34887, Compression::ESRILerc));
        r.push((34892, Compression::LossyJPEG));
        r.push((34925, Compression::LZMA2));
        r.push((34926, Compression::ZstdOld));
        r.push((34927, Compression::WebPOld));
        r.push((34933, Compression::PNG));
        r.push((34934, Compression::JPEGXR));
        r.push((50000, Compression::Zstd));
        r.push((50001, Compression::WebP));
        r.push((50002, Compression::JPEGXLOld));
        r.push((52546, Compression::JPEGXL));
        r.push((65000, Compression::KodakDCRCompressed));
        r.push((65535, Compression::PentaxPEFCompressed));
        if let Compression::UnknownValue(v) = self {
            r.push((0, Compression::UnknownValue(copy_u16s(v.as_slice()))));
        }
        r
    }

    /// Decoding the code of a named value gives that value back.
    pub proof fn lemma_named_round_trip(x: Self)
        requires
            !(x is UnknownValue),
        ensures
            x.codes().len() == 1,
            Self::named_of(x.codes()[0]) == Some(x),
            Self::decodes(x.codes(), x),
    {
    }
}

/// Colour model of the image data.
#[allow(non_camel_case_types)]
#[derive(Clone, Debug, PartialEq, Eq)]
pub enum PhotometricInterpretation {
    WhiteIsZero,
    BlackIsZero,
    RGB,
    RGBPalette,
    TransparencyMask,
    CMYK,
    YCbCr,
    CIELab,
    ICCLab,
    ITULab,
    ColorFilterArray,
    PixarLogL,
    PixarLogLuv,
    SequentialColorFilter,
    LinearRaw,
    DepthMap,
    SemanticMask,
    UnknownValue(Vec<u16>),
}

impl PhotometricInterpretation {
    /// The named value a single code stands for, if any.
    pub open spec fn named_of(c: u16) -> Option<PhotometricInterpretation> {
        if c == 0 {
            Some(PhotometricInterpretation::WhiteIsZero)
        } else if c == 1 {
            Some(PhotometricInterpretation::BlackIsZero)
        } else if c == 2 {
            Some(PhotometricInterpretation::RGB)
        } else if c == 3 {
            Some(PhotometricInterpretation::RGBPalette)
        } else if c == 4 {
            Some(PhotometricInterpretation::TransparencyMask)
        } else if c == 5 {
            Some(PhotometricInterpretation::CMYK)
        } else if c == 6 {
            Some(PhotometricInterpretation::YCbCr)
        } else if c == 8 {
            Some(PhotometricInterpretation::CIELab)
        } else if c == 9 {
            Some(PhotometricInterpretation::ICCLab)
        } else if c == 10 {
            Some(PhotometricInterpretation::ITULab)
        } else if c == 32803 {
            Some(PhotometricInterpretation::ColorFilterArray)
        } else if c == 32844 {
            Some(PhotometricInterpretation::PixarLogL)
        } else if c == 32845 {
            Some(PhotometricInterpretation::PixarLogLuv)
        } else if c == 32892 {
            Some(PhotometricInterpretation::SequentialColorFilter)
        } else if c == 34892 {
            Some(PhotometricInterpretation::LinearRaw)
        } else if c == 51177 {
            Some(PhotometricInterpretation::DepthMap)
        } else if c == 52527 {
            Some(PhotometricInterpretation::SemanticMask)
        } else {
            None
        }
    }

    /// `r` is what decoding the raw codes `v` gives: the named value for one known code, an
    /// unknown value holding `v` otherwise.
    pub open spec fn decodes(v: Seq<u16>, r: Self) -> bool {
        &&& r.codes() == v
        &&& v.len() == 1 && Self::named_of(v[0]) is Some ==> Some(r) == Self::named_of(v[0])
        &&& !(v.len() == 1 && Self::named_of(v[0]) is Some) ==> r is UnknownValue
    }

    /// The raw codes of the value.
    pub open spec fn codes(&self) -> Seq<u16> {
        match self {
            PhotometricInterpretation::WhiteIsZero => seq![0u16],
            PhotometricInterpretation::BlackIsZero => seq![1u16],
            PhotometricInterpretation::RGB => seq![2u16],
            PhotometricInterpretation::RGBPalette => seq![3u16],
            PhotometricInterpretation::TransparencyMask => seq![4u16],
            PhotometricInterpretation::CMYK => seq![5u16],
            PhotometricInterpretation::YCbCr => seq![6u16],
            PhotometricInterpretation::CIELab => seq![8u16],
            PhotometricInterpretation::ICCLab => seq![9u16],
            PhotometricInterpretation::ITULab => seq![10u16],
            PhotometricInterpretation::ColorFilterArray => seq![32803u16],
            PhotometricInterpretation::PixarLogL => seq![32844u16],
            PhotometricInterpretation::PixarLogLuv => seq![32845u16],
            PhotometricInterpretation::SequentialColorFilter => seq![32892u16],
            PhotometricInterpretation::LinearRaw => seq![34892u16],
            PhotometricInterpretation::DepthMap => seq![51177u16],
            PhotometricInterpretation::SemanticMask => seq![52527u16],
            PhotometricInterpretation::UnknownValue(v) => v@,
        }
    }

    /// The codes of the named values, in listing order.
    pub open spec fn listed() -> Seq<u16> {
        seq![0u16, 1u16, 2u16, 3u16, 4u16, 5u16, 6u16, 8u16, 9u16, 10u16, 32803u16, 32844u16, 32845u16, 32892u16, 34892u16, 51177u16, 52527u16]
    }

    /// Display name of the value.
    pub open spec fn text(&self) -> Seq<char> {
        match self {
            PhotometricInterpretation::WhiteIsZero => "WhiteIsZero"@,
            PhotometricInterpretation::BlackIsZero => "BlackIsZero"@,
            PhotometricInterpretation::RGB => "RGB"@,
            PhotometricInterpretation::RGBPalette => "RGBPalette"@,
            PhotometricInterpretation::TransparencyMask => "TransparencyMask"@,
            PhotometricInterpretation::CMYK => "CMYK"@,
            PhotometricInterpretation::YCbCr => "YCbCr"@,
            PhotometricInterpretation::CIELab => "CIELab"@,
            PhotometricInterpretation::ICCLab => "ICCLab"@,
            PhotometricInterpretation::ITULab => "ITULab"@,
            PhotometricInterpretation::ColorFilterArray => "ColorFilterArray"@,
            PhotometricInterpretation::PixarLogL => "PixarLogL"@,
            PhotometricInterpretation::PixarLogLuv => "PixarLogLuv"@,
            PhotometricInterpretation::SequentialColorFilter => "SequentialColorFilter"@,
            PhotometricInterpretation::LinearRaw => "LinearRaw"@,
            PhotometricInterpretation::DepthMap => "DepthMap"@,
            PhotometricInterpretation::SemanticMask => "SemanticMask"@,
            PhotometricInterpretation::UnknownValue(v) => "UnknownValue"@ + list_dec(v@.map_values(|x: u16| x as int)),
        }
    }

    pub fn to_vec(&self) -> (r: Vec<u16>)
        ensures
            r@ == self.codes(),
    {
        match self {
            PhotometricInterpretation::WhiteIsZero => vec![0],
            PhotometricInterpretation::BlackIsZero => vec![1],
            PhotometricInterpretation::RGB => vec![2],
            PhotometricInterpretation::RGBPalette => vec![3],
            PhotometricInterpretation::TransparencyMask => vec![4],
            PhotometricInterpretation::CMYK => vec![5],
            PhotometricInterpretation::YCbCr => vec![6],
            PhotometricInterpretation::CIELab => vec![8],
            PhotometricInterpretation::ICCLab => vec![9],
            PhotometricInterpretation::ITULab => vec![10],
            PhotometricInterpretation::ColorFilterArray => vec![32803],
            PhotometricInterpretation::PixarLogL => vec![32844],
            PhotometricInterpretation::PixarLogLuv => vec![32845],
            PhotometricInterpretation::SequentialColorFilter => vec![32892],
            PhotometricInterpretation::LinearRaw => vec![34892],
            PhotometricInterpretation::DepthMap => vec![51177],
            PhotometricInterpretation::SemanticMask => vec![52527],
            PhotometricInterpretation::UnknownValue(v) => copy_u16s(v.as_slice()),
        }
    }

    /// Decodes raw codes; anything but one known code is kept as it is.
    pub fn from_vec(v: &[u16]) -> (r: Self)
        ensures
            r.codes() == v@,
            v@.len() == 1 && Self::named_of(v@[0]) is Some ==> Some(r) == Self::named_of(v@[0]),
            !(v@.len() == 1 && Self::named_of(v@[0]) is Some) ==> r is UnknownValue,
    {
        if v.len() != 1 {
            return PhotometricInterpretation::UnknownValue(copy_u16s(v));
        }
        match v[0] {
            0 => PhotometricInterpretation::WhiteIsZero,
            1 => PhotometricInterpretation::BlackIsZero,
            2 => PhotometricInterpretation::RGB,
            3 => PhotometricInterpretation::RGBPalette,
            4 => PhotometricInterpretation::TransparencyMask,
            5 => PhotometricInterpretation::CMYK,
            6 => PhotometricInterpretation::YCbCr,
            8 => PhotometricInterpretation::CIELab,
            9 => PhotometricInterpretation::ICCLab,
            10 => PhotometricInterpretation::ITULab,
            32803 => PhotometricInterpretation::ColorFilterArray,
            32844 => PhotometricInterpretation::PixarLogL,
            32845 => PhotometricInterpretation::PixarLogLuv,
            32892 => PhotometricInterpretation::SequentialColorFilter,
            34892 => PhotometricInterpretation::LinearRaw,
            51177 => PhotometricInterpretation::DepthMap,
            52527 => PhotometricInterpretation::SemanticMask,
            _ => PhotometricInterpretation::UnknownValue(copy_u16s(v)),
        }
    }

    /// Decodes codes stored one per byte.
    pub fn from_u8_vec(v: &[u8]) -> (r: Self)
        ensures
            r.codes() == v@.map_values(|b: u8| b as u16),
            v@.len() == 1 && Self::named_of(v@[0] as u16) is Some ==> Some(r) == Self::named_of(v@[0] as u16),
            !(v@.len() == 1 && Self::named_of(v@[0] as u16) is Some) ==> r is UnknownValue,
    {
        let w = widen_bytes(v);
        Self::from_vec(w.as_slice())
    }

    /// What `from_vec` gives for the codes `c`, as far as it is fixed.
    pub fn to_string(&self) -> (r: String)
        ensures
            r@ == self.text(),
    {
        match self {
            PhotometricInterpretation::WhiteIsZero => String::from_str("WhiteIsZero"),
            PhotometricInterpretation::BlackIsZero => String::from_str("BlackIsZero"),
            PhotometricInterpretation::RGB => String::from_str("RGB"),
            PhotometricInterpretation::RGBPalette => String::from_str("RGBPalette"),
            PhotometricInterpretation::TransparencyMask => String::from_str("TransparencyMask"),
            PhotometricInterpretation::CMYK => String::from_str("CMYK"),
            PhotometricInterpretation::YCbCr => String::from_str("YCbCr"),
            PhotometricInterpretation::CIELab => String::from_str("CIELab"),
            PhotometricInterpretation::ICCLab => String::from_str("ICCLab"),
            PhotometricInterpretation::ITULab => String::from_str("ITULab"),
            PhotometricInterpretation::ColorFilterArray => String::from_str("ColorFilterArray"),
            PhotometricInterpretation::PixarLogL => String::from_str("PixarLogL"),
            PhotometricInterpretation::PixarLogLuv => String::from_str("PixarLogLuv"),
            PhotometricInterpretation::SequentialColorFilter => String::from_str("SequentialColorFilter"),
            PhotometricInterpretation::LinearRaw => String::from_str("LinearRaw"),
            PhotometricInterpretation::DepthMap => String::from_str("DepthMap"),
            PhotometricInterpretation::SemanticMask => String::from_str("SemanticMask"),
            PhotometricInterpretation::UnknownValue(v) => {
                let mut s = String::from_str("UnknownValue");
                let w = widen_u16s(v.as_slice());
                let t = list_text(w.as_slice());
                s.append(t.as_str());
                s
            }
        }
    }

    /// The value used when nothing is known yet.
    pub fn unknown() -> (r: Self)
        ensures
            r is UnknownValue,
            r.codes() == seq![65535u16],
    {
        PhotometricInterpretation::UnknownValue(vec![65535])
    }

    /// The first raw code.
    pub fn to_u16(&self) -> (r: u16)
        requires
            self.codes().len() > 0,
        ensures
            r == self.codes()[0],
    {
        let v = self.to_vec();
        v[0]
    }

    pub fn from_u16(value: u16) -> (r: Self)
        ensures
            r.codes() == seq![value],
            Self::named_of(value) is Some ==> Some(r) == Self::named_of(value),
            Self::named_of(value) is None ==> r is UnknownValue,
    {
        let v: Vec<u16> = vec![value];
        proof {
            assert(v@ =~= seq![value]);
        }
        Self::from_vec(v.as_slice())
    }

    /// Every named value with its code, and the value itself at the end when it is unknown.
    pub fn all(&self) -> (r: Vec<(u16, Self)>)
        ensures
            r@.len() == (if self is UnknownValue { 18nat } else { 17nat }),
            forall|i: int| 0 <= i < 17 ==> r@[i].0 == Self::listed()[i] && Self::named_of(r@[i].0) == Some(r@[i].1),
            self is UnknownValue ==> r@[17].0 == 65535 && r@[17].1 is UnknownValue && r@[17].1.codes() == self.codes(),
    {
        let mut r: Vec<(u16, Self)> = Vec::new();
        r.push((0, PhotometricInterpretation::WhiteIsZero));
        r.push((1, PhotometricInterpretation::BlackIsZero));
        r.push((2, PhotometricInterpretation::RGB));
        r.push((3, PhotometricInterpretation::RGBPalette));
        r.push((4, PhotometricInterpretation::TransparencyMask));
        r.push((5, PhotometricInterpretation::CMYK));
        r.push((6, PhotometricInterpretation::YCbCr));
        r.push((8, PhotometricInterpretation::CIELab));
        r.push((9, PhotometricInterpretation::ICCLab));
        r.push((10, PhotometricInterpretation::ITULab));
        r.push((32803, PhotometricInterpretation::ColorFilterArray));
        r.push((32844, PhotometricInterpretation::PixarLogL));
        r.push((32845, PhotometricInterpretation::PixarLogLuv));
        r.push((32892, PhotometricInterpretation::SequentialColorFilter));
        r.push((34892, PhotometricInterpretation::LinearRaw));
        r.push((51177, PhotometricInterpretation::DepthMap));
        r.push((52527, PhotometricInterpretation::SemanticMask));
        if let PhotometricInterpretation::UnknownValue(v) = self {
            r.push((65535, PhotometricInterpretation::UnknownValue(copy_u16s(v.as_slice()))));
        }
        r
    }

    /// Decoding the code of a named value gives that value back.
    pub proof fn lemma_named_round_trip(x: Self)
        requires
            !(x is UnknownValue),
        ensures
            x.codes().len() == 1,
            Self::named_of(x.codes()[0]) == Some(x),
            Self::decodes(x.codes(), x),
    {
    }
}

/// Colour space of the image.
#[allow(non_camel_case_types)]
#[derive(Clone, Debug, PartialEq, Eq)]
pub enum ColorSpace {
    sRGB,
    AdobeRGB,
    WideGamutRGB,
    ICCProfile,
    UnCalibrated,
    UnknownValue(Vec<u16>),
}

impl ColorSpace {
    /// The named value a single code stands for, if any.
    pub open spec fn named_of(c: u16) -> Option<ColorSpace> {
        if c == 1 {
            Some(ColorSpace::sRGB)
        } else if c == 2 {
            Some(ColorSpace::AdobeRGB)
        } else if c == 65533 {
            Some(ColorSpace::WideGamutRGB)
        } else if c == 65534 {
            Some(ColorSpace::ICCProfile)
        } else if c == 65535 {
            Some(ColorSpace::UnCalibrated)
        } else {
            None
        }
    }

    /// `r` is what decoding the raw codes `v` gives: the named value for one known code, an
    /// unknown value holding `v` otherwise.
    pub open spec fn decodes(v: Seq<u16>, r: Self) -> bool {
        &&& r.codes() == v
        &&& v.len() == 1 && Self::named_of(v[0]) is Some ==> Some(r) == Self::named_of(v[0])
        &&& !(v.len() == 1 && Self::named_of(v[0]) is Some) ==> r is UnknownValue
    }

    /// The raw codes of the value.
    pub open spec fn codes(&self) -> Seq<u16> {
        match self {
            ColorSpace::sRGB => seq![1u16],
            ColorSpace::AdobeRGB => seq![2u16],
            ColorSpace::WideGamutRGB => seq![65533u16],
            ColorSpace::ICCProfile => seq![65534u16],
            ColorSpace::UnCalibrated => seq![65535u16],
            ColorSpace::UnknownValue(v) => v@,
        }
    }

    /// The codes of the named values, in listing order.
    pub open spec fn listed() -> Seq<u16> {
        seq![1u16, 2u16, 65533u16, 65534u16, 65535u16]
    }

    /// Display name of the value.
    pub open spec fn text(&self) -> Seq<char> {
        match self {
            ColorSpace::sRGB => "sRGB"@,
            ColorSpace::AdobeRGB => "AdobeRGB"@,
            ColorSpace::WideGamutRGB => "WideGamutRGB"@,
            ColorSpace::ICCProfile => "ICCProfile"@,
            ColorSpace::UnCalibrated => "UnCalibrated"@,
            ColorSpace::UnknownValue(v) => "UnknownValue"@ + list_dec(v@.map_values(|x: u16| x as int)),
        }
    }

    pub fn to_vec(&self) -> (r: Vec<u16>)
        ensures
            r@ == self.codes(),
    {
        match self {
            ColorSpace::sRGB => vec![1],
            ColorSpace::AdobeRGB => vec![2],
            ColorSpace::WideGamutRGB => vec![65533],
            ColorSpace::ICCProfile => vec![65534],
            ColorSpace::UnCalibrated => vec![65535],
            ColorSpace::UnknownValue(v) => copy_u16s(v.as_slice()),
        }
    }

    /// Decodes raw codes; anything but one known code is kept as it is.
    pub fn from_vec(v: &[u16]) -> (r: Self)
        ensures
            r.codes() == v@,
            v@.len() == 1 && Self::named_of(v@[0]) is Some ==> Some(r) == Self::named_of(v@[0]),
            !(v@.len() == 1 && Self::named_of(v@[0]) is Some) ==> r is UnknownValue,
    {
        if v.len() != 1 {
            return ColorSpace::UnknownValue(copy_u16s(v));
        }
        match v[0] {
            1 => ColorSpace::sRGB,
            2 => ColorSpace::AdobeRGB,
            65533 => ColorSpace::WideGamutRGB,
            65534 => ColorSpace::ICCProfile,
            65535 => ColorSpace::UnCalibrated,
            _ => ColorSpace::UnknownValue(copy_u16s(v)),
        }
    }

    /// Decodes codes stored one per byte.
    pub fn from_u8_vec(v: &[u8]) -> (r: Self)
        ensures
            r.codes() == v@.map_values(|b: u8| b as u16),
            v@.len() == 1 && Self::named_of(v@[0] as u16) is Some ==> Some(r) == Self::named_of(v@[0] as u16),
            !(v@.len() == 1 && Self::named_of(v@[0] as u16) is Some) ==> r is UnknownValue,
    {
        let w = widen_bytes(v);
        Self::from_vec(w.as_slice())
    }

    /// What `from_vec` gives for the codes `c`, as far as it is fixed.
    pub fn to_string(&self) -> (r: String)
        ensures
            r@ == self.text(),
    {
        match self {
            ColorSpace::sRGB => String::from_str("sRGB"),
            ColorSpace::AdobeRGB => String::from_str("AdobeRGB"),
            ColorSpace::WideGamutRGB => String::from_str("WideGamutRGB"),
            ColorSpace::ICCProfile => String::from_str("ICCProfile"),
            ColorSpace::UnCalibrated => String::from_str("UnCalibrated"),
            ColorSpace::UnknownValue(v) => {
                let mut s = String::from_str("UnknownValue");
                let w = widen_u16s(v.as_slice());
                let t = list_text(w.as_slice());
                s.append(t.as_str());
                s
            }
        }
    }

    /// The value used when nothing is known yet.
    pub fn unknown() -> (r: Self)
        ensures
            r is UnknownValue,
            r.codes() == seq![0u16],
    {
        ColorSpace::UnknownValue(vec![0])
    }

    /// The first raw code.
    pub fn to_u16(&self) -> (r: u16)
        requires
            self.codes().len() > 0,
        ensures
            r == self.codes()[0],
    {
        let v = self.to_vec();
        v[0]
    }

    pub fn from_u16(value: u16) -> (r: Self)
        ensures
            r.codes() == seq![value],
            Self::named_of(value) is Some ==> Some(r) == Self::named_of(value),
            Self::named_of(value) is None ==> r is UnknownValue,
    {
        let v: Vec<u16> = vec![value];
        proof {
            assert(v@ =~= seq![value]);
        }
        Self::from_vec(v.as_slice())
    }

    /// Every named value with its code, and the value itself at the end when it is unknown.
    pub fn all(&self) -> (r: Vec<(u16, Self)>)
        ensures
            r@.len() == (if self is UnknownValue { 6nat } else { 5nat }),
            forall|i: int| 0 <= i < 5 ==> r@[i].0 == Self::listed()[i] && Self::named_of(r@[i].0) == Some(r@[i].1),
            self is UnknownValue ==> r@[5].0 == 0 && r@[5].1 is UnknownValue && r@[5].1.codes() == self.codes(),
    {
        let mut r: Vec<(u16, Self)> = Vec::new();
        r.push((1, ColorSpace::sRGB));
        r.push((2, ColorSpace::AdobeRGB));
        r.push((65533, ColorSpace::WideGamutRGB));
        r.push((65534, ColorSpace::ICCProfile));
        r.push((65535, ColorSpace::UnCalibrated));
        if let ColorSpace::UnknownValue(v) = self {
            r.push((0, ColorSpace::UnknownValue(copy_u16s(v.as_slice()))));
        }
        r
    }

    /// Decoding the code of a named value gives that value back.
    pub proof fn lemma_named_round_trip(x: Self)
        requires
            !(x is UnknownValue),
        ensures
            x.codes().len() == 1,
            Self::named_of(x.codes()[0]) == Some(x),
            Self::decodes(x.codes(), x),
    {
    }
}

/// How the channels of a pixel are laid out.
#[allow(non_camel_case_types)]
#[derive(Clone, Debug, PartialEq, Eq)]
pub enum PlanarConfiguration {
    Chunky,
    Planar,
    UnknownValue(Vec<u16>),
}

impl PlanarConfiguration {
    /// The named value a single code stands for, if any.
    pub open spec fn named_of(c: u16) -> Option<PlanarConfiguration> {
        if c == 1 {
            Some(PlanarConfiguration::Chunky)
        } else if c == 2 {
            Some(PlanarConfiguration::Planar)
        } else {
            None
        }
    }

    /// `r` is what decoding the raw codes `v` gives: the named value for one known code, an
    /// unknown value holding `v` otherwise.
    pub open spec fn decodes(v: Seq<u16>, r: Self) -> bool {
        &&& r.codes() == v
        &&& v.len() == 1 && Self::named_of(v[0]) is Some ==> Some(r) == Self::named_of(v[0])
        &&& !(v.len() == 1 && Self::named_of(v[0]) is Some) ==> r is UnknownValue
    }

    /// The raw codes of the value.
    pub open spec fn codes(&self) -> Seq<u16> {
        match self {
            PlanarConfiguration::Chunky => seq![1u16],
            PlanarConfiguration::Planar => seq![2u16],
            PlanarConfiguration::UnknownValue(v) => v@,
        }
    }

    /// The codes of the named values, in listing order.
    pub open spec fn listed() -> Seq<u16> {
        seq![1u16, 2u16]
    }

    /// Display name of the value.
    pub open spec fn text(&self) -> Seq<char> {
        match self {
            PlanarConfiguration::Chunky => "Chunky"@,
            PlanarConfiguration::Planar => "Planar"@,
            PlanarConfiguration::UnknownValue(v) => "UnknownValue"@ + list_dec(v@.map_values(|x: u16| x as int)),
        }
    }

    pub fn to_vec(&self) -> (r: Vec<u16>)
        ensures
            r@ == self.codes(),
    {
        match self {
            PlanarConfiguration::Chunky => vec![1],
            PlanarConfiguration::Planar => vec![2],
            PlanarConfiguration::UnknownValue(v) => copy_u16s(v.as_slice()),
        }
    }

    /// Decodes raw codes; anything but one known code is kept as it is.
    pub fn from_vec(v: &[u16]) -> (r: Self)
        ensures
            r.codes() == v@,
            v@.len() == 1 && Self::named_of(v@[0]) is Some ==> Some(r) == Self::named_of(v@[0]),
            !(v@.len() == 1 && Self::named_of(v@[0]) is Some) ==> r is UnknownValue,
    {
        if v.len() != 1 {
            return PlanarConfiguration::UnknownValue(copy_u16s(v));
        }
        match v[0] {
            1 => PlanarConfiguration::Chunky,
            2 => PlanarConfiguration::Planar,
            _ => PlanarConfiguration::UnknownValue(copy_u16s(v)),
        }
    }

    /// Decodes codes stored one per byte.
    pub fn from_u8_vec(v: &[u8]) -> (r: Self)
        ensures
            r.codes() == v@.map_values(|b: u8| b as u16),
            v@.len() == 1 && Self::named_of(v@[0] as u16) is Some ==> Some(r) == Self::named_of(v@[0] as u16),
            !(v@.len() == 1 && Self::named_of(v@[0] as u16) is Some) ==> r is UnknownValue,
    {
        let w = widen_bytes(v);
        Self::from_vec(w.as_slice())
    }

    /// What `from_vec` gives for the codes `c`, as far as it is fixed.
    pub fn to_string(&self) -> (r: String)
        ensures
            r@ == self.text(),
    {
        match self {
            PlanarConfiguration::Chunky => String::from_str("Chunky"),
            PlanarConfiguration::Planar => String::from_str("Planar"),
            PlanarConfiguration::UnknownValue(v) => {
                let mut s = String::from_str("UnknownValue");
                let w = widen_u16s(v.as_slice());
                let t = list_text(w.as_slice());
                s.append(t.as_str());
                s
            }
        }
    }

    /// The value used when nothing is known yet.
    pub fn unknown() -> (r: Self)
        ensures
            r is UnknownValue,
            r.codes() == seq![0u16],
    {
        PlanarConfiguration::UnknownValue(vec![0])
    }

    /// The first raw code.
    pub fn to_u16(&self) -> (r: u16)
        requires
            self.codes().len() > 0,
        ensures
            r == self.codes()[0],
    {
        let v = self.to_vec();
        v[0]
    }

    pub fn from_u16(value: u16) -> (r: Self)
        ensures
            r.codes() == seq![value],
            Self::named_of(value) is Some ==> Some(r) == Self::named_of(value),
            Self::named_of(value) is None ==> r is UnknownValue,
    {
        let v: Vec<u16> = vec![value];
        proof {
            assert(v@ =~= seq![value]);
        }
        Self::from_vec(v.as_slice())
    }

    /// Every named value with its code, and the value itself at the end when it is unknown.
    pub fn all(&self) -> (r: Vec<(u16, Self)>)
        ensures
            r@.len() == (if self is UnknownValue { 3nat } else { 2nat }),
            forall|i: int| 0 <= i < 2 ==> r@[i].0 == Self::listed()[i] && Self::named_of(r@[i].0) == Some(r@[i].1),
            self is UnknownValue ==> r@[2].0 == 0 && r@[2].1 is UnknownValue && r@[2].1.codes() == self.codes(),
    {
        let mut r: Vec<(u16, Self)> = Vec::new();
        r.push((1, PlanarConfiguration::Chunky));
        r.push((2, PlanarConfiguration::Planar));
        if let PlanarConfiguration::UnknownValue(v) = self {
            r.push((0, PlanarConfiguration::UnknownValue(copy_u16s(v.as_slice()))));
        }
        r
    }

    /// Decoding the code of a named value gives that value back.
    pub proof fn lemma_named_round_trip(x: Self)
        requires
            !(x is UnknownValue),
        ensures
            x.codes().len() == 1,
            Self::named_of(x.codes()[0]) == Some(x),
            Self::decodes(x.codes(), x),
    {
    }
}

/// Where subsampled chroma sits relative to luma.
#[allow(non_camel_case_types)]
#[derive(Clone, Debug, PartialEq, Eq)]
pub enum YCbCrPositioning {
    Centered,
    CoSited,
    UnknownValue(Vec<u16>),
}

impl YCbCrPositioning {
    /// The named value a single code stands for, if any.
    pub open spec fn named_of(c: u16) -> Option<YCbCrPositioning> {
        if c == 1 {
            Some(YCbCrPositioning::Centered)
        } else if c == 2 {
            Some(YCbCrPositioning::CoSited)
        } else {
            None
        }
    }

    /// `r` is what decoding the raw codes `v` gives: the named value for one known code, an
    /// unknown value holding `v` otherwise.
    pub open spec fn decodes(v: Seq<u16>, r: Self) -> bool {
        &&& r.codes() == v
        &&& v.len() == 1 && Self::named_of(v[0]) is Some ==> Some(r) == Self::named_of(v[0])
        &&& !(v.len() == 1 && Self::named_of(v[0]) is Some) ==> r is UnknownValue
    }

    /// The raw codes of the value.
    pub open spec fn codes(&self) -> Seq<u16> {
        match self {
            YCbCrPositioning::Centered => seq![1u16],
            YCbCrPositioning::CoSited => seq![2u16],
            YCbCrPositioning::UnknownValue(v) => v@,
        }
    }

    /// The codes of the named values, in listing order.
    pub open spec fn listed() -> Seq<u16> {
        seq![1u16, 2u16]
    }

    /// Display name of the value.
    pub open spec fn text(&self) -> Seq<char> {
        match self {
            YCbCrPositioning::Centered => "Centered"@,
            YCbCrPositioning::CoSited => "CoSited"@,
            YCbCrPositioning::UnknownValue(v) => "UnknownValue"@ + list_dec(v@.map_values(|x: u16| x as int)),
        }
    }

    pub fn to_vec(&self) -> (r: Vec<u16>)
        ensures
            r@ == self.codes(),
    {
        match self {
            YCbCrPositioning::Centered => vec![1],
            YCbCrPositioning::CoSited => vec![2],
            YCbCrPositioning::UnknownValue(v) => copy_u16s(v.as_slice()),
        }
    }

    /// Decodes raw codes; anything but one known code is kept as it is.
    pub fn from_vec(v: &[u16]) -> (r: Self)
        ensures
            r.codes() == v@,
            v@.len() == 1 && Self::named_of(v@[0]) is Some ==> Some(r) == Self::named_of(v@[0]),
            !(v@.len() == 1 && Self::named_of(v@[0]) is Some) ==> r is UnknownValue,
    {
        if v.len() != 1 {
            return YCbCrPositioning::UnknownValue(copy_u16s(v));
        }
        match v[0] {
            1 => YCbCrPositioning::Centered,
            2 => YCbCrPositioning::CoSited,
            _ => YCbCrPositioning::UnknownValue(copy_u16s(v)),
        }
    }

    /// Decodes codes stored one per byte.
    pub fn from_u8_vec(v: &[u8]) -> (r: Self)
        ensures
            r.codes() == v@.map_values(|b: u8| b as u16),
            v@.len() == 1 && Self::named_of(v@[0] as u16) is Some ==> Some(r) == Self::named_of(v@[0] as u16),
            !(v@.len() == 1 && Self::named_of(v@[0] as u16) is Some) ==> r is UnknownValue,
    {
        let w = widen_bytes(v);
        Self::from_vec(w.as_slice())
    }

    /// What `from_vec` gives for the codes `c`, as far as it is fixed.
    pub fn to_string(&self) -> (r: String)
        ensures
            r@ == self.text(),
    {
        match self {
            YCbCrPositioning::Centered => String::from_str("Centered"),
            YCbCrPositioning::CoSited => String::from_str("CoSited"),
            YCbCrPositioning::UnknownValue(v) => {
                let mut s = String::from_str("UnknownValue");
                let w = widen_u16s(v.as_slice());
                let t = list_text(w.as_slice());
                s.append(t.as_str());
                s
            }
        }
    }

    /// The value used when nothing is known yet.
    pub fn unknown() -> (r: Self)
        ensures
            r is UnknownValue,
            r.codes() == seq![0u16],
    {
        YCbCrPositioning::UnknownValue(vec![0])
    }

    /// The first raw code.
    pub fn to_u16(&self) -> (r: u16)
        requires
            self.codes().len() > 0,
        ensures
            r == self.codes()[0],
    {
        let v = self.to_vec();
        v[0]
    }

    pub fn from_u16(value: u16) -> (r: Self)
        ensures
            r.codes() == seq![value],
            Self::named_of(value) is Some ==> Some(r) == Self::named_of(value),
            Self::named_of(value) is None ==> r is UnknownValue,
    {
        let v: Vec<u16> = vec![value];
        proof {
            assert(v@ =~= seq![value]);
        }
        Self::from_vec(v.as_slice())
    }

    /// Every named value with its code, and the value itself at the end when it is unknown.
    pub fn all(&self) -> (r: Vec<(u16, Self)>)
        ensures
            r@.len() == (if self is UnknownValue { 3nat } else { 2nat }),
            forall|i: int| 0 <= i < 2 ==> r@[i].0 == Self::listed()[i] && Self::named_of(r@[i].0) == Some(r@[i].1),
            self is UnknownValue ==> r@[2].0 == 0 && r@[2].1 is UnknownValue && r@[2].1.codes() == self.codes(),
    {
        let mut r: Vec<(u16, Self)> = Vec::new();
        r.push((1, YCbCrPositioning::Centered));
        r.push((2, YCbCrPositioning::CoSited));
        if let YCbCrPositioning::UnknownValue(v) = self {
            r.push((0, YCbCrPositioning::UnknownValue(copy_u16s(v.as_slice()))));
        }
        r
    }

    /// Decoding the code of a named value gives that value back.
    pub proof fn lemma_named_round_trip(x: Self)
        requires
            !(x is UnknownValue),
        ensures
            x.codes().len() == 1,
            Self::named_of(x.codes()[0]) == Some(x),
            Self::decodes(x.codes(), x),
    {
    }
}

/// Whether a measurement was in progress.
#[allow(non_camel_case_types)]
#[derive(Clone, Copy, Debug, PartialEq, Eq, Structural)]
pub enum GPSStatus {
    MeasurementActive,
    MeasurementVoid,
}

impl GPSStatus {
    /// The code letters of the value.
    pub open spec fn code(&self) -> Seq<char> {
        match self {
            GPSStatus::MeasurementActive => "A"@,
            GPSStatus::MeasurementVoid => "V"@,
        }
    }

    /// Position of the value in the listing.
    pub open spec fn ordinal(&self) -> u16 {
        match self {
            GPSStatus::MeasurementActive => 0,
            GPSStatus::MeasurementVoid => 1,
        }
    }

    /// The value at a listing position.
    pub open spec fn at(i: int) -> GPSStatus {
        if i == 0 {
            GPSStatus::MeasurementActive
        } else if i == 1 {
            GPSStatus::MeasurementVoid
        } else {
            GPSStatus::MeasurementVoid
        }
    }

    /// The value that a code text names; unknown codes give the default.
    pub open spec fn decode(s: Seq<char>) -> GPSStatus {
        if s == "A"@ {
            GPSStatus::MeasurementActive
        } else if s == "V"@ {
            GPSStatus::MeasurementVoid
        } else {
            GPSStatus::MeasurementVoid
        }
    }

    pub open spec fn text(&self) -> Seq<char> {
        match self {
            GPSStatus::MeasurementActive => "MeasurementActive"@,
            GPSStatus::MeasurementVoid => "MeasurementVoid"@,
        }
    }

    pub fn to_str(&self) -> (r: String)
        ensures
            r@ == self.code(),
    {
        match self {
            GPSStatus::MeasurementActive => String::from_str("A"),
            GPSStatus::MeasurementVoid => String::from_str("V"),
        }
    }

    /// Decodes a code text; anything unrecognised gives the default value.
    pub fn from_str(s: &str) -> (r: Self)
        ensures
            r == Self::decode(s@),
    {
        if str_eq(s, "A") {
            return GPSStatus::MeasurementActive;
        }
        if str_eq(s, "V") {
            return GPSStatus::MeasurementVoid;
        }
        GPSStatus::MeasurementVoid
    }

    pub fn to_string(&self) -> (r: String)
        ensures
            r@ == self.text(),
    {
        match self {
            GPSStatus::MeasurementActive => String::from_str("MeasurementActive"),
            GPSStatus::MeasurementVoid => String::from_str("MeasurementVoid"),
        }
    }

    pub fn to_u16(&self) -> (r: u16)
        ensures
            r == self.ordinal(),
    {
        match self {
            GPSStatus::MeasurementActive => 0,
            GPSStatus::MeasurementVoid => 1,
        }
    }

    /// The value at a listing position; past the end, the default.
    pub fn from_u16(value: u16) -> (r: Self)
        ensures
            r == Self::at(value as int),
    {
        match value {
            0 => GPSStatus::MeasurementActive,
            1 => GPSStatus::MeasurementVoid,
            _ => GPSStatus::MeasurementVoid,
        }
    }

    /// Every value with its listing position.
    pub fn all(&self) -> (r: Vec<(u16, Self)>)
        ensures
            r@.len() == 2,
            forall|i: int| 0 <= i < 2 ==> r@[i].0 == i && r@[i].1 == Self::at(i),
    {
        let mut r: Vec<(u16, Self)> = Vec::new();
        r.push((0, GPSStatus::MeasurementActive));
        r.push((1, GPSStatus::MeasurementVoid));
        r
    }

    /// Decoding the code of a value gives that value back.
    pub proof fn lemma_round_trip(x: Self)
        ensures
            Self::decode(x.code()) == x,
            Self::at(x.ordinal() as int) == x,
    {
        reveal_strlit("A");
        reveal_strlit("V");
        assert("A"@[0] != "V"@[0]);
    }
}

impl Default for GPSStatus {
    fn default() -> (r: Self)
        ensures
            r == GPSStatus::MeasurementVoid,
    {
        GPSStatus::MeasurementVoid
    }
}

/// Dimensions of a position measurement.
#[allow(non_camel_case_types)]
#[derive(Clone, Copy, Debug, PartialEq, Eq, Structural)]
pub enum GPSMeasureMode {
    TwoDimensionalMeasurement,
    ThreeDimensionalMeasurement,
}

impl GPSMeasureMode {
    /// The code letters of the value.
    pub open spec fn code(&self) -> Seq<char> {
        match self {
            GPSMeasureMode::TwoDimensionalMeasurement => "2"@,
            GPSMeasureMode::ThreeDimensionalMeasurement => "3"@,
        }
    }

    /// Position of the value in the listing.
    pub open spec fn ordinal(&self) -> u16 {
        match self {
            GPSMeasureMode::TwoDimensionalMeasurement => 0,
            GPSMeasureMode::ThreeDimensionalMeasurement => 1,
        }
    }

    /// The value at a listing position.
    pub open spec fn at(i: int) -> GPSMeasureMode {
        if i == 0 {
            GPSMeasureMode::TwoDimensionalMeasurement
        } else if i == 1 {
            GPSMeasureMode::ThreeDimensionalMeasurement
        } else {
            GPSMeasureMode::TwoDimensionalMeasurement
        }
    }

    /// The value that a code text names; unknown codes give the default.
    pub open spec fn decode(s: Seq<char>) -> GPSMeasureMode {
        if s == "2"@ {
            GPSMeasureMode::TwoDimensionalMeasurement
        } else if s == "3"@ {
            GPSMeasureMode::ThreeDimensionalMeasurement
        } else {
            GPSMeasureMode::TwoDimensionalMeasurement
        }
    }

    pub open spec fn text(&self) -> Seq<char> {
        match self {
            GPSMeasureMode::TwoDimensionalMeasurement => "TwoDimensionalMeasurement"@,
            GPSMeasureMode::ThreeDimensionalMeasurement => "ThreeDimensionalMeasurement"@,
        }
    }

    pub fn to_str(&self) -> (r: String)
        ensures
            r@ == self.code(),
    {
        match self {
            GPSMeasureMode::TwoDimensionalMeasurement => String::from_str("2"),
            GPSMeasureMode::ThreeDimensionalMeasurement => String::from_str("3"),
        }
    }

    /// Decodes a code text; anything unrecognised gives the default value.
    pub fn from_str(s: &str) -> (r: Self)
        ensures
            r == Self::decode(s@),
    {
        if str_eq(s, "2") {
            return GPSMeasureMode::TwoDimensionalMeasurement;
        }
        if str_eq(s, "3") {
            return GPSMeasureMode::ThreeDimensionalMeasurement;
        }
        GPSMeasureMode::TwoDimensionalMeasurement
    }

    pub fn to_string(&self) -> (r: String)
        ensures
            r@ == self.text(),
    {
        match self {
            GPSMeasureMode::TwoDimensionalMeasurement => String::from_str("TwoDimensionalMeasurement"),
            GPSMeasureMode::ThreeDimensionalMeasurement => String::from_str("ThreeDimensionalMeasurement"),
        }
    }

    pub fn to_u16(&self) -> (r: u16)
        ensures
            r == self.ordinal(),
    {
        match self {
            GPSMeasureMode::TwoDimensionalMeasurement => 0,
            GPSMeasureMode::ThreeDimensionalMeasurement => 1,
        }
    }

    /// The value at a listing position; past the end, the default.
    pub fn from_u16(value: u16) -> (r: Self)
        ensures
            r == Self::at(value as int),
    {
        match value {
            0 => GPSMeasureMode::TwoDimensionalMeasurement,
            1 => GPSMeasureMode::ThreeDimensionalMeasurement,
            _ => GPSMeasureMode::TwoDimensionalMeasurement,
        }
    }

    /// Every value with its listing position.
    pub fn all(&self) -> (r: Vec<(u16, Self)>)
        ensures
            r@.len() == 2,
            forall|i: int| 0 <= i < 2 ==> r@[i].0 == i && r@[i].1 == Self::at(i),
    {
        let mut r: Vec<(u16, Self)> = Vec::new();
        r.push((0, GPSMeasureMode::TwoDimensionalMeasurement));
        r.push((1, GPSMeasureMode::ThreeDimensionalMeasurement));
        r
    }

    /// Decoding the code of a value gives that value back.
    pub proof fn lemma_round_trip(x: Self)
        ensures
            Self::decode(x.code()) == x,
            Self::at(x.ordinal() as int) == x,
    {
        reveal_strlit("2");
        reveal_strlit("3");
        assert("2"@[0] != "3"@[0]);
    }
}

impl Default for GPSMeasureMode {
    fn default() -> (r: Self)
        ensures
            r == GPSMeasureMode::TwoDimensionalMeasurement,
    {
        GPSMeasureMode::TwoDimensionalMeasurement
    }
}

/// Which north a direction is measured from.
#[allow(non_camel_case_types)]
#[derive(Clone, Copy, Debug, PartialEq, Eq, Structural)]
pub enum NorthRef {
    MagneticNorth,
    TrueNorth,
}

impl NorthRef {
    /// The code letters of the value.
    pub open spec fn code(&self) -> Seq<char> {
        match self {
            NorthRef::MagneticNorth => "M"@,
            NorthRef::TrueNorth => "T"@,
        }
    }

    /// Position of the value in the listing.
    pub open spec fn ordinal(&self) -> u16 {
        match self {
            NorthRef::MagneticNorth => 0,
            NorthRef::TrueNorth => 1,
        }
    }

    /// The value at a listing position.
    pub open spec fn at(i: int) -> NorthRef {
        if i == 0 {
            NorthRef::MagneticNorth
        } else if i == 1 {
            NorthRef::TrueNorth
        } else {
            NorthRef::MagneticNorth
        }
    }

    /// The value that a code text names; unknown codes give the default.
    pub open spec fn decode(s: Seq<char>) -> NorthRef {
        if s == "M"@ {
            NorthRef::MagneticNorth
        } else if s == "T"@ {
            NorthRef::TrueNorth
        } else {
            NorthRef::MagneticNorth
        }
    }

    pub open spec fn text(&self) -> Seq<char> {
        match self {
            NorthRef::MagneticNorth => "MagneticNorth"@,
            NorthRef::TrueNorth => "TrueNorth"@,
        }
    }

    pub fn to_str(&self) -> (r: String)
        ensures
            r@ == self.code(),
    {
        match self {
            NorthRef::MagneticNorth => String::from_str("M"),
            NorthRef::TrueNorth => String::from_str("T"),
        }
    }

    /// Decodes a code text; anything unrecognised gives the default value.
    pub fn from_str(s: &str) -> (r: Self)
        ensures
            r == Self::decode(s@),
    {
        if str_eq(s, "M") {
            return NorthRef::MagneticNorth;
        }
        if str_eq(s, "T") {
            return NorthRef::TrueNorth;
        }
        NorthRef::MagneticNorth
    }

    pub fn to_string(&self) -> (r: String)
        ensures
            r@ == self.text(),
    {
        match self {
            NorthRef::MagneticNorth => String::from_str("MagneticNorth"),
            NorthRef::TrueNorth => String::from_str("TrueNorth"),
        }
    }

    pub fn to_u16(&self) -> (r: u16)
        ensures
            r == self.ordinal(),
    {
        match self {
            NorthRef::MagneticNorth => 0,
            NorthRef::TrueNorth => 1,
        }
    }

    /// The value at a listing position; past the end, the default.
    pub fn from_u16(value: u16) -> (r: Self)
        ensures
            r == Self::at(value as int),
    {
        match value {
            0 => NorthRef::MagneticNorth,
            1 => NorthRef::TrueNorth,
            _ => NorthRef::MagneticNorth,
        }
    }

    /// Every value with its listing position.
    pub fn all(&self) -> (r: Vec<(u16, Self)>)
        ensures
            r@.len() == 2,
            forall|i: int| 0 <= i < 2 ==> r@[i].0 == i && r@[i].1 == Self::at(i),
    {
        let mut r: Vec<(u16, Self)> = Vec::new();
        r.push((0, NorthRef::MagneticNorth));
        r.push((1, NorthRef::TrueNorth));
        r
    }

    /// Decoding the code of a value gives that value back.
    pub proof fn lemma_round_trip(x: Self)
        ensures
            Self::decode(x.code()) == x,
            Self::at(x.ordinal() as int) == x,
    {
        reveal_strlit("M");
        reveal_strlit("T");
        assert("M"@[0] != "T"@[0]);
    }
}

impl Default for NorthRef {
    fn default() -> (r: Self)
        ensures
            r == NorthRef::MagneticNorth,
    {
        NorthRef::MagneticNorth
    }
}

/// Unit of a distance to the destination.
#[allow(non_camel_case_types)]
#[derive(Clone, Copy, Debug, PartialEq, Eq, Structural)]
pub enum GPSDestDistanceRef {
    Kilimeters,
    Miles,
    NauticalMiles,
}

impl GPSDestDistanceRef {
    /// The code letters of the value.
    pub open spec fn code(&self) -> Seq<char> {
        match self {
            GPSDestDistanceRef::Kilimeters => "K"@,
            GPSDestDistanceRef::Miles => "M"@,
            GPSDestDistanceRef::NauticalMiles => "N"@,
        }
    }

    /// Position of the value in the listing.
    pub open spec fn ordinal(&self) -> u16 {
        match self {
            GPSDestDistanceRef::Kilimeters => 0,
            GPSDestDistanceRef::Miles => 1,
            GPSDestDistanceRef::NauticalMiles => 2,
        }
    }

    /// The value at a listing position.
    pub open spec fn at(i: int) -> GPSDestDistanceRef {
        if i == 0 {
            GPSDestDistanceRef::Kilimeters
        } else if i == 1 {
            GPSDestDistanceRef::Miles
        } else if i == 2 {
            GPSDestDistanceRef::NauticalMiles
        } else {
            GPSDestDistanceRef::Kilimeters
        }
    }

    /// The value that a code text names; unknown codes give the default.
    pub open spec fn decode(s: Seq<char>) -> GPSDestDistanceRef {
        if s == "K"@ {
            GPSDestDistanceRef::Kilimeters
        } else if s == "M"@ {
            GPSDestDistanceRef::Miles
        } else if s == "N"@ {
            GPSDestDistanceRef::NauticalMiles
        } else {
            GPSDestDistanceRef::Kilimeters
        }
    }

    pub open spec fn text(&self) -> Seq<char> {
        match self {
            GPSDestDistanceRef::Kilimeters => "Kilimeters"@,
            GPSDestDistanceRef::Miles => "Miles"@,
            GPSDestDistanceRef::NauticalMiles => "NauticalMiles"@,
        }
    }

    pub fn to_str(&self) -> (r: String)
        ensures
            r@ == self.code(),
    {
        match self {
            GPSDestDistanceRef::Kilimeters => String::from_str("K"),
            GPSDestDistanceRef::Miles => String::from_str("M"),
            GPSDestDistanceRef::NauticalMiles => String::from_str("N"),
        }
    }

    /// Decodes a code text; anything unrecognised gives the default value.
    pub fn from_str(s: &str) -> (r: Self)
        ensures
            r == Self::decode(s@),
    {
        if str_eq(s, "K") {
            return GPSDestDistanceRef::Kilimeters;
        }
        if str_eq(s, "M") {
            return GPSDestDistanceRef::Miles;
        }
        if str_eq(s, "N") {
            return GPSDestDistanceRef::NauticalMiles;
        }
        GPSDestDistanceRef::Kilimeters
    }

    pub fn to_string(&self) -> (r: String)
        ensures
            r@ == self.text(),
    {
        match self {
            GPSDestDistanceRef::Kilimeters => String::from_str("Kilimeters"),
            GPSDestDistanceRef::Miles => String::from_str("Miles"),
            GPSDestDistanceRef::NauticalMiles => String::from_str("NauticalMiles"),
        }
    }

    pub fn to_u16(&self) -> (r: u16)
        ensures
            r == self.ordinal(),
    {
        match self {
            GPSDestDistanceRef::Kilimeters => 0,
            GPSDestDistanceRef::Miles => 1,
            GPSDestDistanceRef::NauticalMiles => 2,
        }
    }

    /// The value at a listing position; past the end, the default.
    pub fn from_u16(value: u16) -> (r: Self)
        ensures
            r == Self::at(value as int),
    {
        match value {
            0 => GPSDestDistanceRef::Kilimeters,
            1 => GPSDestDistanceRef::Miles,
            2 => GPSDestDistanceRef::NauticalMiles,
            _ => GPSDestDistanceRef::Kilimeters,
        }
    }

    /// Every value with its listing position.
    pub fn all(&self) -> (r: Vec<(u16, Self)>)
        ensures
            r@.len() == 3,
            forall|i: int| 0 <= i < 3 ==> r@[i].0 == i && r@[i].1 == Self::at(i),
    {
        let mut r: Vec<(u16, Self)> = Vec::new();
        r.push((0, GPSDestDistanceRef::Kilimeters));
        r.push((1, GPSDestDistanceRef::Miles));
        r.push((2, GPSDestDistanceRef::NauticalMiles));
        r
    }

    /// Decoding the code of a value gives that value back.
    pub proof fn lemma_round_trip(x: Self)
        ensures
            Self::decode(x.code()) == x,
            Self::at(x.ordinal() as int) == x,
    {
        reveal_strlit("K");
        reveal_strlit("M");
        reveal_strlit("N");
        assert("K"@[0] != "M"@[0]);
        assert("K"@[0] != "N"@[0]);
        assert("M"@[0] != "N"@[0]);
    }
}

impl Default for GPSDestDistanceRef {
    fn default() -> (r: Self)
        ensures
            r == GPSDestDistanceRef::Kilimeters,
    {
        GPSDestDistanceRef::Kilimeters
    }
}

/// Whether differential correction was applied.
#[allow(non_camel_case_types)]
#[derive(Clone, Debug, PartialEq, Eq)]
pub enum GPSDifferential {
    NoCorrection,
    DifferentialCorrected,
    UnknownValue(Vec<u16>),
}

impl GPSDifferential {
    /// The named value a single code stands for, if any.
    pub open spec fn named_of(c: u16) -> Option<GPSDifferential> {
        if c == 0 {
            Some(GPSDifferential::NoCorrection)
        } else if c == 1 {
            Some(GPSDifferential::DifferentialCorrected)
        } else {
            None
        }
    }

    /// `r` is what decoding the raw codes `v` gives: the named value for one known code, an
    /// unknown value holding `v` otherwise.
    pub open spec fn decodes(v: Seq<u16>, r: Self) -> bool {
        &&& r.codes() == v
        &&& v.len() == 1 && Self::named_of(v[0]) is Some ==> Some(r) == Self::named_of(v[0])
        &&& !(v.len() == 1 && Self::named_of(v[0]) is Some) ==> r is UnknownValue
    }

    /// The raw codes of the value.
    pub open spec fn codes(&self) -> Seq<u16> {
        match self {
            GPSDifferential::NoCorrection => seq![0u16],
            GPSDifferential::DifferentialCorrected => seq![1u16],
            GPSDifferential::UnknownValue(v) => v@,
        }
    }

    /// The codes of the named values, in listing order.
    pub open spec fn listed() -> Seq<u16> {
        seq![0u16, 1u16]
    }

    /// Display name of the value.
    pub open spec fn text(&self) -> Seq<char> {
        match self {
            GPSDifferential::NoCorrection => "NoCorrection"@,
            GPSDifferential::DifferentialCorrected => "DifferentialCorrected"@,
            GPSDifferential::UnknownValue(v) => "UnknownValue"@ + list_dec(v@.map_values(|x: u16| x as int)),
        }
    }

    pub fn to_vec(&self) -> (r: Vec<u16>)
        ensures
            r@ == self.codes(),
    {
        match self {
            GPSDifferential::NoCorrection => vec![0],
            GPSDifferential::DifferentialCorrected => vec![1],
            GPSDifferential::UnknownValue(v) => copy_u16s(v.as_slice()),
        }
    }

    /// Decodes raw codes; anything but one known code is kept as it is.
    pub fn from_vec(v: &[u16]) -> (r: Self)
        ensures
            r.codes() == v@,
            v@.len() == 1 && Self::named_of(v@[0]) is Some ==> Some(r) == Self::named_of(v@[0]),
            !(v@.len() == 1 && Self::named_of(v@[0]) is Some) ==> r is UnknownValue,
    {
        if v.len() != 1 {
            return GPSDifferential::UnknownValue(copy_u16s(v));
        }
        match v[0] {
            0 => GPSDifferential::NoCorrection,
            1 => GPSDifferential::DifferentialCorrected,
            _ => GPSDifferential::UnknownValue(copy_u16s(v)),
        }
    }

    /// Decodes codes stored one per byte.
    pub fn from_u8_vec(v: &[u8]) -> (r: Self)
        ensures
            r.codes() == v@.map_values(|b: u8| b as u16),
            v@.len() == 1 && Self::named_of(v@[0] as u16) is Some ==> Some(r) == Self::named_of(v@[0] as u16),
            !(v@.len() == 1 && Self::named_of(v@[0] as u16) is Some) ==> r is UnknownValue,
    {
        let w = widen_bytes(v);
        Self::from_vec(w.as_slice())
    }

    /// What `from_vec` gives for the codes `c`, as far as it is fixed.
    pub fn to_string(&self) -> (r: String)
        ensures
            r@ == self.text(),
    {
        match self {
            GPSDifferential::NoCorrection => String::from_str("NoCorrection"),
            GPSDifferential::DifferentialCorrected => String::from_str("DifferentialCorrected"),
            GPSDifferential::UnknownValue(v) => {
                let mut s = String::from_str("UnknownValue");
                let w = widen_u16s(v.as_slice());
                let t = list_text(w.as_slice());
                s.append(t.as_str());
                s
            }
        }
    }

    /// The value used when nothing is known yet.
    pub fn unknown() -> (r: Self)
        ensures
            r is UnknownValue,
            r.codes() == seq![255u16],
    {
        GPSDifferential::UnknownValue(vec![255])
    }

    /// The first raw code.
    pub fn to_u16(&self) -> (r: u16)
        requires
            self.codes().len() > 0,
        ensures
            r == self.codes()[0],
    {
        let v = self.to_vec();
        v[0]
    }

    pub fn from_u16(value: u16) -> (r: Self)
        ensures
            r.codes() == seq![value],
            Self::named_of(value) is Some ==> Some(r) == Self::named_of(value),
            Self::named_of(value) is None ==> r is UnknownValue,
    {
        let v: Vec<u16> = vec![value];
        proof {
            assert(v@ =~= seq![value]);
        }
        Self::from_vec(v.as_slice())
    }

    /// Every named value with its code, and the value itself at the end when it is unknown.
    pub fn all(&self) -> (r: Vec<(u16, Self)>)
        ensures
            r@.len() == (if self is UnknownValue { 3nat } else { 2nat }),
            forall|i: int| 0 <= i < 2 ==> r@[i].0 == Self::listed()[i] && Self::named_of(r@[i].0) == Some(r@[i].1),
            self is UnknownValue ==> r@[2].0 == 255 && r@[2].1 is UnknownValue && r@[2].1.codes() == self.codes(),
    {
        let mut r: Vec<(u16, Self)> = Vec::new();
        r.push((0, GPSDifferential::NoCorrection));
        r.push((1, GPSDifferential::DifferentialCorrected));
        if let GPSDifferential::UnknownValue(v) = self {
            r.push((255, GPSDifferential::UnknownValue(copy_u16s(v.as_slice()))));
        }
        r
    }

    /// Decoding the code of a named value gives that value back.
    pub proof fn lemma_named_round_trip(x: Self)
        requires
            !(x is UnknownValue),
        ensures
            x.codes().len() == 1,
            Self::named_of(x.codes()[0]) == Some(x),
            Self::decodes(x.codes(), x),
    {
    }
}

/// Program the camera used to set the exposure.
#[allow(non_camel_case_types)]
#[derive(Clone, Debug, PartialEq, Eq)]
pub enum ExposureProgram {
    NotDefined,
    Manual,
    ProgramAE,
    AperturePriorityAE,
    ShutterSpeedPriorityAE,
    CreativeSLowSpeed,
    ActionHighSpeed,
    Portrait,
    Landscape,
    Bulb,
    UnknownValue(Vec<u16>),
}

impl ExposureProgram {
    /// The named value a single code stands for, if any.
    pub open spec fn named_of(c: u16) -> Option<ExposureProgram> {
        if c == 0 {
            Some(ExposureProgram::NotDefined)
        } else if c == 1 {
            Some(ExposureProgram::Manual)
        } else if c == 2 {
            Some(ExposureProgram::ProgramAE)
        } else if c == 3 {
            Some(ExposureProgram::AperturePriorityAE)
        } else if c == 4 {
            Some(ExposureProgram::ShutterSpeedPriorityAE)
        } else if c == 5 {
            Some(ExposureProgram::CreativeSLowSpeed)
        } else if c == 6 {
            Some(ExposureProgram::ActionHighSpeed)
        } else if c == 7 {
            Some(ExposureProgram::Portrait)
        } else if c == 8 {
            Some(ExposureProgram::Landscape)
        } else if c == 9 {
            Some(ExposureProgram::Bulb)
        } else {
            None
        }
    }

    /// `r` is what decoding the raw codes `v` gives: the named value for one known code, an
    /// unknown value holding `v` otherwise.
    pub open spec fn decodes(v: Seq<u16>, r: Self) -> bool {
        &&& r.codes() == v
        &&& v.len() == 1 && Self::named_of(v[0]) is Some ==> Some(r) == Self::named_of(v[0])
        &&& !(v.len() == 1 && Self::named_of(v[0]) is Some) ==> r is UnknownValue
    }

    /// The raw codes of the value.
    pub open spec fn codes(&self) -> Seq<u16> {
        match self {
            ExposureProgram::NotDefined => seq![0u16],
            ExposureProgram::Manual => seq![1u16],
            ExposureProgram::ProgramAE => seq![2u16],
            ExposureProgram::AperturePriorityAE => seq![3u16],
            ExposureProgram::ShutterSpeedPriorityAE => seq![4u16],
            ExposureProgram::CreativeSLowSpeed => seq![5u16],
            ExposureProgram::ActionHighSpeed => seq![6u16],
            ExposureProgram::Portrait => seq![7u16],
            ExposureProgram::Landscape => seq![8u16],
            ExposureProgram::Bulb => seq![9u16],
            ExposureProgram::UnknownValue(v) => v@,
        }
    }

    /// The codes of the named values, in listing order.
    pub open spec fn listed() -> Seq<u16> {
        seq![0u16, 1u16, 2u16, 3u16, 4u16, 5u16, 6u16, 7u16, 8u16, 9u16]
    }

    /// Display name of the value.
    pub open spec fn text(&self) -> Seq<char> {
        match self {
            ExposureProgram::NotDefined => "NotDefined"@,
            ExposureProgram::Manual => "Manual"@,
            ExposureProgram::ProgramAE => "ProgramAE"@,
            ExposureProgram::AperturePriorityAE => "AperturePriorityAE"@,
            ExposureProgram::ShutterSpeedPriorityAE => "ShutterSpeedPriorityAE"@,
            ExposureProgram::CreativeSLowSpeed => "CreativeSLowSpeed"@,
            ExposureProgram::ActionHighSpeed => "ActionHighSpeed"@,
            ExposureProgram::Portrait => "Portrait"@,
            ExposureProgram::Landscape => "Landscape"@,
            ExposureProgram::Bulb => "Bulb"@,
            ExposureProgram::UnknownValue(v) => "UnknownValue"@ + list_dec(v@.map_values(|x: u16| x as int)),
        }
    }

    pub fn to_vec(&self) -> (r: Vec<u16>)
        ensures
            r@ == self.codes(),
    {
        match self {
            ExposureProgram::NotDefined => vec![0],
            ExposureProgram::Manual => vec![1],
            ExposureProgram::ProgramAE => vec![2],
            ExposureProgram::AperturePriorityAE => vec![3],
            ExposureProgram::ShutterSpeedPriorityAE => vec![4],
            ExposureProgram::CreativeSLowSpeed => vec![5],
            ExposureProgram::ActionHighSpeed => vec![6],
            ExposureProgram::Portrait => vec![7],
            ExposureProgram::Landscape => vec![8],
            ExposureProgram::Bulb => vec![9],
            ExposureProgram::UnknownValue(v) => copy_u16s(v.as_slice()),
        }
    }

    /// Decodes raw codes; anything but one known code is kept as it is.
    pub fn from_vec(v: &[u16]) -> (r: Self)
        ensures
            r.codes() == v@,
            v@.len() == 1 && Self::named_of(v@[0]) is Some ==> Some(r) == Self::named_of(v@[0]),
            !(v@.len() == 1 && Self::named_of(v@[0]) is Some) ==> r is UnknownValue,
    {
        if v.len() != 1 {
            return ExposureProgram::UnknownValue(copy_u16s(v));
        }
        match v[0] {
            0 => ExposureProgram::NotDefined,
            1 => ExposureProgram::Manual,
            2 => ExposureProgram::ProgramAE,
            3 => ExposureProgram::AperturePriorityAE,
            4 => ExposureProgram::ShutterSpeedPriorityAE,
            5 => ExposureProgram::CreativeSLowSpeed,
            6 => ExposureProgram::ActionHighSpeed,
            7 => ExposureProgram::Portrait,
            8 => ExposureProgram::Landscape,
            9 => ExposureProgram::Bulb,
            _ => ExposureProgram::UnknownValue(copy_u16s(v)),
        }
    }

    /// Decodes codes stored one per byte.
    pub fn from_u8_vec(v: &[u8]) -> (r: Self)
        ensures
            r.codes() == v@.map_values(|b: u8| b as u16),
            v@.len() == 1 && Self::named_of(v@[0] as u16) is Some ==> Some(r) == Self::named_of(v@[0] as u16),
            !(v@.len() == 1 && Self::named_of(v@[0] as u16) is Some) ==> r is UnknownValue,
    {
        let w = widen_bytes(v);
        Self::from_vec(w.as_slice())
    }

    /// What `from_vec` gives for the codes `c`, as far as it is fixed.
    pub fn to_string(&self) -> (r: String)
        ensures
            r@ == self.text(),
    {
        match self {
            ExposureProgram::NotDefined => String::from_str("NotDefined"),
            ExposureProgram::Manual => String::from_str("Manual"),
            ExposureProgram::ProgramAE => String::from_str("ProgramAE"),
            ExposureProgram::AperturePriorityAE => String::from_str("AperturePriorityAE"),
            ExposureProgram::ShutterSpeedPriorityAE => String::from_str("ShutterSpeedPriorityAE"),
            ExposureProgram::CreativeSLowSpeed => String::from_str("CreativeSLowSpeed"),
            ExposureProgram::ActionHighSpeed => String::from_str("ActionHighSpeed"),
            ExposureProgram::Portrait => String::from_str("Portrait"),
            ExposureProgram::Landscape => String::from_str("Landscape"),
            ExposureProgram::Bulb => String::from_str("Bulb"),
            ExposureProgram::UnknownValue(v) => {
                let mut s = String::from_str("UnknownValue");
                let w = widen_u16s(v.as_slice());
                let t = list_text(w.as_slice());
                s.append(t.as_str());
                s
            }
        }
    }

    /// The value used when nothing is known yet.
    pub fn unknown() -> (r: Self)
        ensures
            r is UnknownValue,
            r.codes() == seq![255u16],
    {
        ExposureProgram::UnknownValue(vec![255])
    }

    /// The first raw code.
    pub fn to_u16(&self) -> (r: u16)
        requires
            self.codes().len() > 0,
        ensures
            r == self.codes()[0],
    {
        let v = self.to_vec();
        v[0]
    }

    pub fn from_u16(value: u16) -> (r: Self)
        ensures
            r.codes() == seq![value],
            Self::named_of(value) is Some ==> Some(r) == Self::named_of(value),
            Self::named_of(value) is None ==> r is UnknownValue,
    {
        let v: Vec<u16> = vec![value];
        proof {
            assert(v@ =~= seq![value]);
        }
        Self::from_vec(v.as_slice())
    }

    /// Every named value with its code, and the value itself at the end when it is unknown.
    pub fn all(&self) -> (r: Vec<(u16, Self)>)
        ensures
            r@.len() == (if self is UnknownValue { 11nat } else { 10nat }),
            forall|i: int| 0 <= i < 10 ==> r@[i].0 == Self::listed()[i] && Self::named_of(r@[i].0) == Some(r@[i].1),
            self is UnknownValue ==> r@[10].0 == 255 && r@[10].1 is UnknownValue && r@[10].1.codes() == self.codes(),
    {
        let mut r: Vec<(u16, Self)> = Vec::new();
        r.push((0, ExposureProgram::NotDefined));
        r.push((1, ExposureProgram::Manual));
        r.push((2, ExposureProgram::ProgramAE));
        r.push((3, ExposureProgram::AperturePriorityAE));
        r.push((4, ExposureProgram::ShutterSpeedPriorityAE));
        r.push((5, ExposureProgram::CreativeSLowSpeed));
        r.push((6, ExposureProgram::ActionHighSpeed));
        r.push((7, ExposureProgram::Portrait));
        r.push((8, ExposureProgram::Landscape));
        r.push((9, ExposureProgram::Bulb));
        if let ExposureProgram::UnknownValue(v) = self {
            r.push((255, ExposureProgram::UnknownValue(copy_u16s(v.as_slice()))));
        }
        r
    }

    /// Decoding the code of a named value gives that value back.
    pub proof fn lemma_named_round_trip(x: Self)
        requires
            !(x is UnknownValue),
        ensures
            x.codes().len() == 1,
            Self::named_of(x.codes()[0]) == Some(x),
            Self::decodes(x.codes(), x),
    {
    }
}

/// How the exposure was set.
#[allow(non_camel_case_types)]
#[derive(Clone, Debug, PartialEq, Eq)]
pub enum ExposureMode {
    Auto,
    Manual,
    AutoBracket,
    UnknownValue(Vec<u16>),
}

impl ExposureMode {
    /// The named value a single code stands for, if any.
    pub open spec fn named_of(c: u16) -> Option<ExposureMode> {
        if c == 0 {
            Some(ExposureMode::Auto)
        } else if c == 1 {
            Some(ExposureMode::Manual)
        } else if c == 2 {
            Some(ExposureMode::AutoBracket)
        } else {
            None
        }
    }

    /// `r` is what decoding the raw codes `v` gives: the named value for one known code, an
    /// unknown value holding `v` otherwise.
    pub open spec fn decodes(v: Seq<u16>, r: Self) -> bool {
        &&& r.codes() == v
        &&& v.len() == 1 && Self::named_of(v[0]) is Some ==> Some(r) == Self::named_of(v[0])
        &&& !(v.len() == 1 && Self::named_of(v[0]) is Some) ==> r is UnknownValue
    }

    /// The raw codes of the value.
    pub open spec fn codes(&self) -> Seq<u16> {
        match self {
            ExposureMode::Auto => seq![0u16],
            ExposureMode::Manual => seq![1u16],
            ExposureMode::AutoBracket => seq![2u16],
            ExposureMode::UnknownValue(v) => v@,
        }
    }

    /// The codes of the named values, in listing order.
    pub open spec fn listed() -> Seq<u16> {
        seq![0u16, 1u16, 2u16]
    }

    /// Display name of the value.
    pub open spec fn text(&self) -> Seq<char> {
        match self {
            ExposureMode::Auto => "Auto"@,
            ExposureMode::Manual => "Manual"@,
            ExposureMode::AutoBracket => "AutoBracket"@,
            ExposureMode::UnknownValue(v) => "UnknownValue"@ + list_dec(v@.map_values(|x: u16| x as int)),
        }
    }

    pub fn to_vec(&self) -> (r: Vec<u16>)
        ensures
            r@ == self.codes(),
    {
        match self {
            ExposureMode::Auto => vec![0],
            ExposureMode::Manual => vec![1],
            ExposureMode::AutoBracket => vec![2],
            ExposureMode::UnknownValue(v) => copy_u16s(v.as_slice()),
        }
    }

    /// Decodes raw codes; anything but one known code is kept as it is.
    pub fn from_vec(v: &[u16]) -> (r: Self)
        ensures
            r.codes() == v@,
            v@.len() == 1 && Self::named_of(v@[0]) is Some ==> Some(r) == Self::named_of(v@[0]),
            !(v@.len() == 1 && Self::named_of(v@[0]) is Some) ==> r is UnknownValue,
    {
        if v.len() != 1 {
            return ExposureMode::UnknownValue(copy_u16s(v));
        }
        match v[0] {
            0 => ExposureMode::Auto,
            1 => ExposureMode::Manual,
            2 => ExposureMode::AutoBracket,
            _ => ExposureMode::UnknownValue(copy_u16s(v)),
        }
    }

    /// Decodes codes stored one per byte.
    pub fn from_u8_vec(v: &[u8]) -> (r: Self)
        ensures
            r.codes() == v@.map_values(|b: u8| b as u16),
            v@.len() == 1 && Self::named_of(v@[0] as u16) is Some ==> Some(r) == Self::named_of(v@[0] as u16),
            !(v@.len() == 1 && Self::named_of(v@[0] as u16) is Some) ==> r is UnknownValue,
    {
        let w = widen_bytes(v);
        Self::from_vec(w.as_slice())
    }

    /// What `from_vec` gives for the codes `c`, as far as it is fixed.
    pub fn to_string(&self) -> (r: String)
        ensures
            r@ == self.text(),
    {
        match self {
            ExposureMode::Auto => String::from_str("Auto"),
            ExposureMode::Manual => String::from_str("Manual"),
            ExposureMode::AutoBracket => String::from_str("AutoBracket"),
            ExposureMode::UnknownValue(v) => {
                let mut s = String::from_str("UnknownValue");
                let w = widen_u16s(v.as_slice());
                let t = list_text(w.as_slice());
                s.append(t.as_str());
                s
            }
        }
    }

    /// The value used when nothing is known yet.
    pub fn unknown() -> (r: Self)
        ensures
            r is UnknownValue,
            r.codes() == seq![255u16],
    {
        ExposureMode::UnknownValue(vec![255])
    }

    /// The first raw code.
    pub fn to_u16(&self) -> (r: u16)
        requires
            self.codes().len() > 0,
        ensures
            r == self.codes()[0],
    {
        let v = self.to_vec();
        v[0]
    }

    pub fn from_u16(value: u16) -> (r: Self)
        ensures
            r.codes() == seq![value],
            Self::named_of(value) is Some ==> Some(r) == Self::named_of(value),
            Self::named_of(value) is None ==> r is UnknownValue,
    {
        let v: Vec<u16> = vec![value];
        proof {
            assert(v@ =~= seq![value]);
        }
        Self::from_vec(v.as_slice())
    }

    /// Every named value with its code, and the value itself at the end when it is unknown.
    pub fn all(&self) -> (r: Vec<(u16, Self)>)
        ensures
            r@.len() == (if self is UnknownValue { 4nat } else { 3nat }),
            forall|i: int| 0 <= i < 3 ==> r@[i].0 == Self::listed()[i] && Self::named_of(r@[i].0) == Some(r@[i].1),
            self is UnknownValue ==> r@[3].0 == 255 && r@[3].1 is UnknownValue && r@[3].1.codes() == self.codes(),
    {
        let mut r: Vec<(u16, Self)> = Vec::new();
        r.push((0, ExposureMode::Auto));
        r.push((1, ExposureMode::Manual));
        r.push((2, ExposureMode::AutoBracket));
        if let ExposureMode::UnknownValue(v) = self {
            r.push((255, ExposureMode::UnknownValue(copy_u16s(v.as_slice()))));
        }
        r
    }

    /// Decoding the code of a named value gives that value back.
    pub proof fn lemma_named_round_trip(x: Self)
        requires
            !(x is UnknownValue),
        ensures
            x.codes().len() == 1,
            Self::named_of(x.codes()[0]) == Some(x),
            Self::decodes(x.codes(), x),
    {
    }
}

/// How the light was metered.
#[allow(non_camel_case_types)]
#[derive(Clone, Debug, PartialEq, Eq)]
pub enum MeteringMode {
    Unknown,
    Average,
    CenterWeightedAverage,
    Spot,
    MultiSpot,
    MultiSegment,
    Partial,
    Other,
    UnknownValue(Vec<u16>),
}

impl MeteringMode {
    /// The named value a single code stands for, if any.
    pub open spec fn named_of(c: u16) -> Option<MeteringMode> {
        if c == 0 {
            Some(MeteringMode::Unknown)
        } else if c == 1 {
            Some(MeteringMode::Average)
        } else if c == 2 {
            Some(MeteringMode::CenterWeightedAverage)
        } else if c == 3 {
            Some(MeteringMode::Spot)
        } else if c == 4 {
            Some(MeteringMode::MultiSpot)
        } else if c == 5 {
            Some(MeteringMode::MultiSegment)
        } else if c == 6 {
            Some(MeteringMode::Partial)
        } else if c == 255 {
            Some(MeteringMode::Other)
        } else {
            None
        }
    }

    /// `r` is what decoding the raw codes `v` gives: the named value for one known code, an
    /// unknown value holding `v` otherwise.
    pub open spec fn decodes(v: Seq<u16>, r: Self) -> bool {
        &&& r.codes() == v
        &&& v.len() == 1 && Self::named_of(v[0]) is Some ==> Some(r) == Self::named_of(v[0])
        &&& !(v.len() == 1 && Self::named_of(v[0]) is Some) ==> r is UnknownValue
    }

    /// The raw codes of the value.
    pub open spec fn codes(&self) -> Seq<u16> {
        match self {
            MeteringMode::Unknown => seq![0u16],
            MeteringMode::Average => seq![1u16],
            MeteringMode::CenterWeightedAverage => seq![2u16],
            MeteringMode::Spot => seq![3u16],
            MeteringMode::MultiSpot => seq![4u16],
            MeteringMode::MultiSegment => seq![5u16],
            MeteringMode::Partial => seq![6u16],
            MeteringMode::Other => seq![255u16],
            MeteringMode::UnknownValue(v) => v@,
        }
    }

    /// The codes of the named values, in listing order.
    pub open spec fn listed() -> Seq<u16> {
        seq![0u16, 1u16, 2u16, 3u16, 4u16, 5u16, 6u16, 255u16]
    }

    /// Display name of the value.
    pub open spec fn text(&self) -> Seq<char> {
        match self {
            MeteringMode::Unknown => "Unknown"@,
            MeteringMode::Average => "Average"@,
            MeteringMode::CenterWeightedAverage => "CenterWeightedAverage"@,
            MeteringMode::Spot => "Spot"@,
            MeteringMode::MultiSpot => "MultiSpot"@,
            MeteringMode::MultiSegment => "MultiSegment"@,
            MeteringMode::Partial => "Partial"@,
            MeteringMode::Other => "Other"@,
            MeteringMode::UnknownValue(v) => "UnknownValue"@ + list_dec(v@.map_values(|x: u16| x as int)),
        }
    }

    pub fn to_vec(&self) -> (r: Vec<u16>)
        ensures
            r@ == self.codes(),
    {
        match self {
            MeteringMode::Unknown => vec![0],
            MeteringMode::Average => vec![1],
            MeteringMode::CenterWeightedAverage => vec![2],
            MeteringMode::Spot => vec![3],
            MeteringMode::MultiSpot => vec![4],
            MeteringMode::MultiSegment => vec![5],
            MeteringMode::Partial => vec![6],
            MeteringMode::Other => vec![255],
            MeteringMode::UnknownValue(v) => copy_u16s(v.as_slice()),
        }
    }

    /// Decodes raw codes; anything but one known code is kept as it is.
    pub fn from_vec(v: &[u16]) -> (r: Self)
        ensures
            r.codes() == v@,
            v@.len() == 1 && Self::named_of(v@[0]) is Some ==> Some(r) == Self::named_of(v@[0]),
            !(v@.len() == 1 && Self::named_of(v@[0]) is Some) ==> r is UnknownValue,
    {
        if v.len() != 1 {
            return MeteringMode::UnknownValue(copy_u16s(v));
        }
        match v[0] {
            0 => MeteringMode::Unknown,
            1 => MeteringMode::Average,
            2 => MeteringMode::CenterWeightedAverage,
            3 => MeteringMode::Spot,
            4 => MeteringMode::MultiSpot,
            5 => MeteringMode::MultiSegment,
            6 => MeteringMode::Partial,
            255 => MeteringMode::Other,
            _ => MeteringMode::UnknownValue(copy_u16s(v)),
        }
    }

    /// Decodes codes stored one per byte.
    pub fn from_u8_vec(v: &[u8]) -> (r: Self)
        ensures
            r.codes() == v@.map_values(|b: u8| b as u16),
            v@.len() == 1 && Self::named_of(v@[0] as u16) is Some ==> Some(r) == Self::named_of(v@[0] as u16),
            !(v@.len() == 1 && Self::named_of(v@[0] as u16) is Some) ==> r is UnknownValue,
    {
        let w = widen_bytes(v);
        Self::from_vec(w.as_slice())
    }

    /// What `from_vec` gives for the codes `c`, as far as it is fixed.
    pub fn to_string(&self) -> (r: String)
        ensures
            r@ == self.text(),
    {
        match self {
            MeteringMode::Unknown => String::from_str("Unknown"),
            MeteringMode::Average => String::from_str("Average"),
            MeteringMode::CenterWeightedAverage => String::from_str("CenterWeightedAverage"),
            MeteringMode::Spot => String::from_str("Spot"),
            MeteringMode::MultiSpot => String::from_str("MultiSpot"),
            MeteringMode::MultiSegment => String::from_str("MultiSegment"),
            MeteringMode::Partial => String::from_str("Partial"),
            MeteringMode::Other => String::from_str("Other"),
            MeteringMode::UnknownValue(v) => {
                let mut s = String::from_str("UnknownValue");
                let w = widen_u16s(v.as_slice());
                let t = list_text(w.as_slice());
                s.append(t.as_str());
                s
            }
        }
    }

    /// The value used when nothing is known yet.
    pub fn unknown() -> (r: Self)
        ensures
            r is UnknownValue,
            r.codes() == seq![254u16],
    {
        MeteringMode::UnknownValue(vec![254])
    }

    /// The first raw code.
    pub fn to_u16(&self) -> (r: u16)
        requires
            self.codes().len() > 0,
        ensures
            r == self.codes()[0],
    {
        let v = self.to_vec();
        v[0]
    }

    pub fn from_u16(value: u16) -> (r: Self)
        ensures
            r.codes() == seq![value],
            Self::named_of(value) is Some ==> Some(r) == Self::named_of(value),
            Self::named_of(value) is None ==> r is UnknownValue,
    {
        let v: Vec<u16> = vec![value];
        proof {
            assert(v@ =~= seq![value]);
        }
        Self::from_vec(v.as_slice())
    }

    /// Every named value with its code, and the value itself at the end when it is unknown.
    pub fn all(&self) -> (r: Vec<(u16, Self)>)
        ensures
            r@.len() == (if self is UnknownValue { 9nat } else { 8nat }),
            forall|i: int| 0 <= i < 8 ==> r@[i].0 == Self::listed()[i] && Self::named_of(r@[i].0) == Some(r@[i].1),
            self is UnknownValue ==> r@[8].0 == 254 && r@[8].1 is UnknownValue && r@[8].1.codes() == self.codes(),
    {
        let mut r: Vec<(u16, Self)> = Vec::new();
        r.push((0, MeteringMode::Unknown));
        r.push((1, MeteringMode::Average));
        r.push((2, MeteringMode::CenterWeightedAverage));
        r.push((3, MeteringMode::Spot));
        r.push((4, MeteringMode::MultiSpot));
        r.push((5, MeteringMode::MultiSegment));
        r.push((6, MeteringMode::Partial));
        r.push((255, MeteringMode::Other));
        if let MeteringMode::UnknownValue(v) = self {
            r.push((254, MeteringMode::UnknownValue(copy_u16s(v.as_slice()))));
        }
        r
    }

    /// Decoding the code of a named value gives that value back.
    pub proof fn lemma_named_round_trip(x: Self)
        requires
            !(x is UnknownValue),
        ensures
            x.codes().len() == 1,
            Self::named_of(x.codes()[0]) == Some(x),
            Self::decodes(x.codes(), x),
    {
    }
}

/// Kind of light the image was taken under.
#[allow(non_camel_case_types)]
#[derive(Clone, Debug, PartialEq, Eq)]
pub enum LightSource {
    Unknown,
    Daylight,
    Fluorescent,
    TungstenIncandescent,
    Flash,
    FineWeather,
    Cloudy,
    Shade,
    DaylightFluorescent,
    DayWhiteFluorescent,
    CoolWhiteFluorescent,
    WhiteFluorescent,
    WarmWhiteFluorescent,
    StandardLightA,
    StandardLightB,
    StandardLightC,
    D55,
    D65,
    D75,
    D50,
    ISOStudioTungsten,
    Other,
    UnknownValue(Vec<u16>),
}

impl LightSource {
    /// The named value a single code stands for, if any.
    pub open spec fn named_of(c: u16) -> Option<LightSource> {
        if c == 0 {
            Some(LightSource::Unknown)
        } else if c == 1 {
            Some(LightSource::Daylight)
        } else if c == 2 {
            Some(LightSource::Fluorescent)
        } else if c == 3 {
            Some(LightSource::TungstenIncandescent)
        } else if c == 4 {
            Some(LightSource::Flash)
        } else if c == 9 {
            Some(LightSource::FineWeather)
        } else if c == 10 {
            Some(LightSource::Cloudy)
        } else if c == 11 {
            Some(LightSource::Shade)
        } else if c == 12 {
            Some(LightSource::DaylightFluorescent)
        } else if c == 13 {
            Some(LightSource::DayWhiteFluorescent)
        } else if c == 14 {
            Some(LightSource::CoolWhiteFluorescent)
        } else if c == 15 {
            Some(LightSource::WhiteFluorescent)
        } else if c == 16 {
            Some(LightSource::WarmWhiteFluorescent)
        } else if c == 17 {
            Some(LightSource::StandardLightA)
        } else if c == 18 {
            Some(LightSource::StandardLightB)
        } else if c == 19 {
            Some(LightSource::StandardLightC)
        } else if c == 20 {
            Some(LightSource::D55)
        } else if c == 21 {
            Some(LightSource::D65)
        } else if c == 22 {
            Some(LightSource::D75)
        } else if c == 23 {
            Some(LightSource::D50)
        } else if c == 24 {
            Some(LightSource::ISOStudioTungsten)
        } else if c == 255 {
            Some(LightSource::Other)
        } else {
            None
        }
    }

    /// `r` is what decoding the raw codes `v` gives: the named value for one known code, an
    /// unknown value holding `v` otherwise.
    pub open spec fn decodes(v: Seq<u16>, r: Self) -> bool {
        &&& r.codes() == v
        &&& v.len() == 1 && Self::named_of(v[0]) is Some ==> Some(r) == Self::named_of(v[0])
        &&& !(v.len() == 1 && Self::named_of(v[0]) is Some) ==> r is UnknownValue
    }

    /// The raw codes of the value.
    pub open spec fn codes(&self) -> Seq<u16> {
        match self {
            LightSource::Unknown => seq![0u16],
            LightSource::Daylight => seq![1u16],
            LightSource::Fluorescent => seq![2u16],
            LightSource::TungstenIncandescent => seq![3u16],
            LightSource::Flash => seq![4u16],
            LightSource::FineWeather => seq![9u16],
            LightSource::Cloudy => seq![10u16],
            LightSource::Shade => seq![11u16],
            LightSource::DaylightFluorescent => seq![12u16],
            LightSource::DayWhiteFluorescent => seq![13u16],
            LightSource::CoolWhiteFluorescent => seq![14u16],
            LightSource::WhiteFluorescent => seq![15u16],
            LightSource::WarmWhiteFluorescent => seq![16u16],
            LightSource::StandardLightA => seq![17u16],
            LightSource::StandardLightB => seq![18u16],
            LightSource::StandardLightC => seq![19u16],
            LightSource::D55 => seq![20u16],
            LightSource::D65 => seq![21u16],
            LightSource::D75 => seq![22u16],
            LightSource::D50 => seq![23u16],
            LightSource::ISOStudioTungsten => seq![24u16],
            LightSource::Other => seq![255u16],
            LightSource::UnknownValue(v) => v@,
        }
    }

    /// The codes of the named values, in listing order.
    pub open spec fn listed() -> Seq<u16> {
        seq![0u16, 1u16, 2u16, 3u16, 4u16, 9u16, 10u16, 11u16, 12u16, 13u16, 14u16, 15u16, 16u16, 17u16, 18u16, 19u16, 20u16, 21u16, 22u16, 23u16, 24u16, 255u16]
    }

    /// Display name of the value.
    pub open spec fn text(&self) -> Seq<char> {
        match self {
            LightSource::Unknown => "Unknown"@,
            LightSource::Daylight => "Daylight"@,
            LightSource::Fluorescent => "Fluorescent"@,
            LightSource::TungstenIncandescent => "TungstenIncandescent"@,
            LightSource::Flash => "Flash"@,
            LightSource::FineWeather => "FineWeather"@,
            LightSource::Cloudy => "Cloudy"@,
            LightSource::Shade => "Shade"@,
            LightSource::DaylightFluorescent => "DaylightFluorescent"@,
            LightSource::DayWhiteFluorescent => "DayWhiteFluorescent"@,
            LightSource::CoolWhiteFluorescent => "CoolWhiteFluorescent"@,
            LightSource::WhiteFluorescent => "WhiteFluorescent"@,
            LightSource::WarmWhiteFluorescent => "WarmWhiteFluorescent"@,
            LightSource::StandardLightA => "StandardLightA"@,
            LightSource::StandardLightB => "StandardLightB"@,
            LightSource::StandardLightC => "StandardLightC"@,
            LightSource::D55 => "D55"@,
            LightSource::D65 => "D65"@,
            LightSource::D75 => "D75"@,
            LightSource::D50 => "D50"@,
            LightSource::ISOStudioTungsten => "ISOStudioTungsten"@,
            LightSource::Other => "Other"@,
            LightSource::UnknownValue(v) => "UnknownValue"@ + list_dec(v@.map_values(|x: u16| x as int)),
        }
    }

    pub fn to_vec(&self) -> (r: Vec<u16>)
        ensures
            r@ == self.codes(),
    {
        match self {
            LightSource::Unknown => vec![0],
            LightSource::Daylight => vec![1],
            LightSource::Fluorescent => vec![2],
            LightSource::TungstenIncandescent => vec![3],
            LightSource::Flash => vec![4],
            LightSource::FineWeather => vec![9],
            LightSource::Cloudy => vec![10],
            LightSource::Shade => vec![11],
            LightSource::DaylightFluorescent => vec![12],
            LightSource::DayWhiteFluorescent => vec![13],
            LightSource::CoolWhiteFluorescent => vec![14],
            LightSource::WhiteFluorescent => vec![15],
            LightSource::WarmWhiteFluorescent => vec![16],
            LightSource::StandardLightA => vec![17],
            LightSource::StandardLightB => vec![18],
            LightSource::StandardLightC => vec![19],
            LightSource::D55 => vec![20],
            LightSource::D65 => vec![21],
            LightSource::D75 => vec![22],
            LightSource::D50 => vec![23],
            LightSource::ISOStudioTungsten => vec![24],
            LightSource::Other => vec![255],
            LightSource::UnknownValue(v) => copy_u16s(v.as_slice()),
        }
    }

    /// Decodes raw codes; anything but one known code is kept as it is.
    pub fn from_vec(v: &[u16]) -> (r: Self)
        ensures
            r.codes() == v@,
            v@.len() == 1 && Self::named_of(v@[0]) is Some ==> Some(r) == Self::named_of(v@[0]),
            !(v@.len() == 1 && Self::named_of(v@[0]) is Some) ==> r is UnknownValue,
    {
        if v.len() != 1 {
            return LightSource::UnknownValue(copy_u16s(v));
        }
        match v[0] {
            0 => LightSource::Unknown,
            1 => LightSource::Daylight,
            2 => LightSource::Fluorescent,
            3 => LightSource::TungstenIncandescent,
            4 => LightSource::Flash,
            9 => LightSource::FineWeather,
            10 => LightSource::Cloudy,
            11 => LightSource::Shade,
            12 => LightSource::DaylightFluorescent,
            13 => LightSource::DayWhiteFluorescent,
            14 => LightSource::CoolWhiteFluorescent,
            15 => LightSource::WhiteFluorescent,
            16 => LightSource::WarmWhiteFluorescent,
            17 => LightSource::StandardLightA,
            18 => LightSource::StandardLightB,
            19 => LightSource::StandardLightC,
            20 => LightSource::D55,
            21 => LightSource::D65,
            22 => LightSource::D75,
            23 => LightSource::D50,
            24 => LightSource::ISOStudioTungsten,
            255 => LightSource::Other,
            _ => LightSource::UnknownValue(copy_u16s(v)),
        }
    }

    /// Decodes codes stored one per byte.
    pub fn from_u8_vec(v: &[u8]) -> (r: Self)
        ensures
            r.codes() == v@.map_values(|b: u8| b as u16),
            v@.len() == 1 && Self::named_of(v@[0] as u16) is Some ==> Some(r) == Self::named_of(v@[0] as u16),
            !(v@.len() == 1 && Self::named_of(v@[0] as u16) is Some) ==> r is UnknownValue,
    {
        let w = widen_bytes(v);
        Self::from_vec(w.as_slice())
    }

    /// What `from_vec` gives for the codes `c`, as far as it is fixed.
    pub fn to_string(&self) -> (r: String)
        ensures
            r@ == self.text(),
    {
        match self {
            LightSource::Unknown => String::from_str("Unknown"),
            LightSource::Daylight => String::from_str("Daylight"),
            LightSource::Fluorescent => String::from_str("Fluorescent"),
            LightSource::TungstenIncandescent => String::from_str("TungstenIncandescent"),
            LightSource::Flash => String::from_str("Flash"),
            LightSource::FineWeather => String::from_str("FineWeather"),
            LightSource::Cloudy => String::from_str("Cloudy"),
            LightSource::Shade => String::from_str("Shade"),
            LightSource::DaylightFluorescent => String::from_str("DaylightFluorescent"),
            LightSource::DayWhiteFluorescent => String::from_str("DayWhiteFluorescent"),
            LightSource::CoolWhiteFluorescent => String::from_str("CoolWhiteFluorescent"),
            LightSource::WhiteFluorescent => String::from_str("WhiteFluorescent"),
            LightSource::WarmWhiteFluorescent => String::from_str("WarmWhiteFluorescent"),
            LightSource::StandardLightA => String::from_str("StandardLightA"),
            LightSource::StandardLightB => String::from_str("StandardLightB"),
            LightSource::StandardLightC => String::from_str("StandardLightC"),
            LightSource::D55 => String::from_str("D55"),
            LightSource::D65 => String::from_str("D65"),
            LightSource::D75 => String::from_str("D75"),
            LightSource::D50 => String::from_str("D50"),
            LightSource::ISOStudioTungsten => String::from_str("ISOStudioTungsten"),
            LightSource::Other => String::from_str("Other"),
            LightSource::UnknownValue(v) => {
                let mut s = String::from_str("UnknownValue");
                let w = widen_u16s(v.as_slice());
                let t = list_text(w.as_slice());
                s.append(t.as_str());
                s
            }
        }
    }

    /// The value used when nothing is known yet.
    pub fn unknown() -> (r: Self)
        ensures
            r is UnknownValue,
            r.codes() == seq![254u16],
    {
        LightSource::UnknownValue(vec![254])
    }

    /// The first raw code.
    pub fn to_u16(&self) -> (r: u16)
        requires
            self.codes().len() > 0,
        ensures
            r == self.codes()[0],
    {
        let v = self.to_vec();
        v[0]
    }

    pub fn from_u16(value: u16) -> (r: Self)
        ensures
            r.codes() == seq![value],
            Self::named_of(value) is Some ==> Some(r) == Self::named_of(value),
            Self::named_of(value) is None ==> r is UnknownValue,
    {
        let v: Vec<u16> = vec![value];
        proof {
            assert(v@ =~= seq![value]);
        }
        Self::from_vec(v.as_slice())
    }

    /// Every named value with its code, and the value itself at the end when it is unknown.
    pub fn all(&self) -> (r: Vec<(u16, Self)>)
        ensures
            r@.len() == (if self is UnknownValue { 23nat } else { 22nat }),
            forall|i: int| 0 <= i < 22 ==> r@[i].0 == Self::listed()[i] && Self::named_of(r@[i].0) == Some(r@[i].1),
            self is UnknownValue ==> r@[22].0 == 254 && r@[22].1 is UnknownValue && r@[22].1.codes() == self.codes(),
    {
        let mut r: Vec<(u16, Self)> = Vec::new();
        r.push((0, LightSource::Unknown));
        r.push((1, LightSource::Daylight));
        r.push((2, LightSource::Fluorescent));
        r.push((3, LightSource::TungstenIncandescent));
        r.push((4, LightSource::Flash));
        r.push((9, LightSource::FineWeather));
        r.push((10, LightSource::Cloudy));
        r.push((11, LightSource::Shade));
        r.push((12, LightSource::DaylightFluorescent));
        r.push((13, LightSource::DayWhiteFluorescent));
        r.push((14, LightSource::CoolWhiteFluorescent));
        r.push((15, LightSource::WhiteFluorescent));
        r.push((16, LightSource::WarmWhiteFluorescent));
        r.push((17, LightSource::StandardLightA));
        r.push((18, LightSource::StandardLightB));
        r.push((19, LightSource::StandardLightC));
        r.push((20, LightSource::D55));
        r.push((21, LightSource::D65));
        r.push((22, LightSource::D75));
        r.push((23, LightSource::D50));
        r.push((24, LightSource::ISOStudioTungsten));
        r.push((255, LightSource::Other));
        if let LightSource::UnknownValue(v) = self {
            r.push((254, LightSource::UnknownValue(copy_u16s(v.as_slice()))));
        }
        r
    }

    /// Decoding the code of a named value gives that value back.
    pub proof fn lemma_named_round_trip(x: Self)
        requires
            !(x is UnknownValue),
        ensures
            x.codes().len() == 1,
            Self::named_of(x.codes()[0]) == Some(x),
            Self::decodes(x.codes(), x),
    {
    }
}

/// How the flash fired.
#[allow(non_camel_case_types)]
#[derive(Clone, Debug, PartialEq, Eq)]
pub enum Flash {
    NoFlash,
    Fired,
    FiredReturnNotDetected,
    FiredReturnDetected,
    OnDidNotFire,
    OnFired,
    OnReturnNotDetected,
    OnReturnDetected,
    OffDidNotFire,
    OffDidNotFireReturnNotDetected,
    AutoDidNotFire,
    AutoFired,
    AutoFiredReturnNotDetected,
    AutoFiredReturnDetected,
    NoFlashFunction,
    OffNoFlashFunction,
    FiredRedEyeReduction,
    FiredRedEyeReductionReturnNotDetected,
    FiredRedEyeReductionReturnDetected,
    OnRedEyeReduction,
    OnRedEyeReductionReturnNotDetected,
    OnRedEyeReductionReturnDetected,
    OffRedEyeReduction,
    AutoDidNotFireRedEyeReduction,
    AutoFiredRedEyeReduction,
    AutoFiredRedEyeReductionReturnNotDetected,
    AutoFiredRedEyeReductionReturnDetected,
    UnknownValue(Vec<u16>),
}

impl Flash {
    /// The named value a single code stands for, if any.
    pub open spec fn named_of(c: u16) -> Option<Flash> {
        if c == 0 {
            Some(Flash::NoFlash)
        } else if c == 1 {
            Some(Flash::Fired)
        } else if c == 5 {
            Some(Flash::FiredReturnNotDetected)
        } else if c == 7 {
            Some(Flash::FiredReturnDetected)
        } else if c == 8 {
            Some(Flash::OnDidNotFire)
        } else if c == 9 {
            Some(Flash::OnFired)
        } else if c == 13 {
            Some(Flash::OnReturnNotDetected)
        } else if c == 15 {
            Some(Flash::OnReturnDetected)
        } else if c == 16 {
            Some(Flash::OffDidNotFire)
        } else if c == 20 {
            Some(Flash::OffDidNotFireReturnNotDetected)
        } else if c == 24 {
            Some(Flash::AutoDidNotFire)
        } else if c == 25 {
            Some(Flash::AutoFired)
        } else if c == 29 {
            Some(Flash::AutoFiredReturnNotDetected)
        } else if c == 31 {
            Some(Flash::AutoFiredReturnDetected)
        } else if c == 32 {
            Some(Flash::NoFlashFunction)
        } else if c == 48 {
            Some(Flash::OffNoFlashFunction)
        } else if c == 65 {
            Some(Flash::FiredRedEyeReduction)
        } else if c == 69 {
            Some(Flash::FiredRedEyeReductionReturnNotDetected)
        } else if c == 71 {
            Some(Flash::FiredRedEyeReductionReturnDetected)
        } else if c == 73 {
            Some(Flash::OnRedEyeReduction)
        } else if c == 77 {
            Some(Flash::OnRedEyeReductionReturnNotDetected)
        } else if c == 79 {
            Some(Flash::OnRedEyeReductionReturnDetected)
        } else if c == 80 {
            Some(Flash::OffRedEyeReduction)
        } else if c == 88 {
            Some(Flash::AutoDidNotFireRedEyeReduction)
        } else if c == 89 {
            Some(Flash::AutoFiredRedEyeReduction)
        } else if c == 93 {
            Some(Flash::AutoFiredRedEyeReductionReturnNotDetected)
        } else if c == 95 {
            Some(Flash::AutoFiredRedEyeReductionReturnDetected)
        } else {
            None
        }
    }

    /// `r` is what decoding the raw codes `v` gives: the named value for one known code, an
    /// unknown value holding `v` otherwise.
    pub open spec fn decodes(v: Seq<u16>, r: Self) -> bool {
        &&& r.codes() == v
        &&& v.len() == 1 && Self::named_of(v[0]) is Some ==> Some(r) == Self::named_of(v[0])
        &&& !(v.len() == 1 && Self::named_of(v[0]) is Some) ==> r is UnknownValue
    }

    /// The raw codes of the value.
    pub open spec fn codes(&self) -> Seq<u16> {
        match self {
            Flash::NoFlash => seq![0u16],
            Flash::Fired => seq![1u16],
            Flash::FiredReturnNotDetected => seq![5u16],
            Flash::FiredReturnDetected => seq![7u16],
            Flash::OnDidNotFire => seq![8u16],
            Flash::OnFired => seq![9u16],
            Flash::OnReturnNotDetected => seq![13u16],
            Flash::OnReturnDetected => seq![15u16],
            Flash::OffDidNotFire => seq![16u16],
            Flash::OffDidNotFireReturnNotDetected => seq![20u16],
            Flash::AutoDidNotFire => seq![24u16],
            Flash::AutoFired => seq![25u16],
            Flash::AutoFiredReturnNotDetected => seq![29u16],
            Flash::AutoFiredReturnDetected => seq![31u16],
            Flash::NoFlashFunction => seq![32u16],
            Flash::OffNoFlashFunction => seq![48u16],
            Flash::FiredRedEyeReduction => seq![65u16],
            Flash::FiredRedEyeReductionReturnNotDetected => seq![69u16],
            Flash::FiredRedEyeReductionReturnDetected => seq![71u16],
            Flash::OnRedEyeReduction => seq![73u16],
            Flash::OnRedEyeReductionReturnNotDetected => seq![77u16],
            Flash::OnRedEyeReductionReturnDetected => seq![79u16],
            Flash::OffRedEyeReduction => seq![80u16],
            Flash::AutoDidNotFireRedEyeReduction => seq![88u16],
            Flash::AutoFiredRedEyeReduction => seq![89u16],
            Flash::AutoFiredRedEyeReductionReturnNotDetected => seq![93u16],
            Flash::AutoFiredRedEyeReductionReturnDetected => seq![95u16],
            Flash::UnknownValue(v) => v@,
        }
    }

    /// The codes of the named values, in listing order.
    pub open spec fn listed() -> Seq<u16> {
        seq![0u16, 1u16, 5u16, 7u16, 8u16, 9u16, 13u16, 15u16, 16u16, 20u16, 24u16, 25u16, 29u16, 31u16, 32u16, 48u16, 65u16, 69u16, 71u16, 73u16, 77u16, 79u16, 80u16, 88u16, 89u16, 93u16, 95u16]
    }

    /// Display name of the value.
    pub open spec fn text(&self) -> Seq<char> {
        match self {
            Flash::NoFlash => "NoFlash"@,
            Flash::Fired => "Fired"@,
            Flash::FiredReturnNotDetected => "FiredReturnNotDetected"@,
            Flash::FiredReturnDetected => "FiredReturnDetected"@,
            Flash::OnDidNotFire => "OnDidNotFire"@,
            Flash::OnFired => "OnFired"@,
            Flash::OnReturnNotDetected => "OnReturnNotDetected"@,
            Flash::OnReturnDetected => "OnReturnDetected"@,
            Flash::OffDidNotFire => "OffDidNotFire"@,
            Flash::OffDidNotFireReturnNotDetected => "OffDidNotFireReturnNotDetected"@,
            Flash::AutoDidNotFire => "AutoDidNotFire"@,
            Flash::AutoFired => "AutoFired"@,
            Flash::AutoFiredReturnNotDetected => "AutoFiredReturnNotDetected"@,
            Flash::AutoFiredReturnDetected => "AutoFiredReturnDetected"@,
            Flash::NoFlashFunction => "NoFlashFunction"@,
            Flash::OffNoFlashFunction => "OffNoFlashFunction"@,
            Flash::FiredRedEyeReduction => "FiredRedEyeReduction"@,
            Flash::FiredRedEyeReductionReturnNotDetected => "FiredRedEyeReductionReturnNotDetected"@,
            Flash::FiredRedEyeReductionReturnDetected => "FiredRedEyeReductionReturnDetected"@,
            Flash::OnRedEyeReduction => "OnRedEyeReduction"@,
            Flash::OnRedEyeReductionReturnNotDetected => "OnRedEyeReductionReturnNotDetected"@,
            Flash::OnRedEyeReductionReturnDetected => "OnRedEyeReductionReturnDetected"@,
            Flash::OffRedEyeReduction => "OffRedEyeReduction"@,
            Flash::AutoDidNotFireRedEyeReduction => "AutoDidNotFireRedEyeReduction"@,
            Flash::AutoFiredRedEyeReduction => "AutoFiredRedEyeReduction"@,
            Flash::AutoFiredRedEyeReductionReturnNotDetected => "AutoFiredRedEyeReductionReturnNotDetected"@,
            Flash::AutoFiredRedEyeReductionReturnDetected => "AutoFiredRedEyeReductionReturnDetected"@,
            Flash::UnknownValue(v) => "UnknownValue"@ + list_dec(v@.map_values(|x: u16| x as int)),
        }
    }

    pub fn to_vec(&self) -> (r: Vec<u16>)
        ensures
            r@ == self.codes(),
    {
        match self {
            Flash::NoFlash => vec![0],
            Flash::Fired => vec![1],
            Flash::FiredReturnNotDetected => vec![5],
            Flash::FiredReturnDetected => vec![7],
            Flash::OnDidNotFire => vec![8],
            Flash::OnFired => vec![9],
            Flash::OnReturnNotDetected => vec![13],
            Flash::OnReturnDetected => vec![15],
            Flash::OffDidNotFire => vec![16],
            Flash::OffDidNotFireReturnNotDetected => vec![20],
            Flash::AutoDidNotFire => vec![24],
            Flash::AutoFired => vec![25],
            Flash::AutoFiredReturnNotDetected => vec![29],
            Flash::AutoFiredReturnDetected => vec![31],
            Flash::NoFlashFunction => vec![32],
            Flash::OffNoFlashFunction => vec![48],
            Flash::FiredRedEyeReduction => vec![65],
            Flash::FiredRedEyeReductionReturnNotDetected => vec![69],
            Flash::FiredRedEyeReductionReturnDetected => vec![71],
            Flash::OnRedEyeReduction => vec![73],
            Flash::OnRedEyeReductionReturnNotDetected => vec![77],
            Flash::OnRedEyeReductionReturnDetected => vec![79],
            Flash::OffRedEyeReduction => vec![80],
            Flash::AutoDidNotFireRedEyeReduction => vec![88],
            Flash::AutoFiredRedEyeReduction => vec![89],
            Flash::AutoFiredRedEyeReductionReturnNotDetected => vec![93],
            Flash::AutoFiredRedEyeReductionReturnDetected => vec![95],
            Flash::UnknownValue(v) => copy_u16s(v.as_slice()),
        }
    }

    /// Decodes raw codes; anything but one known code is kept as it is.
    pub fn from_vec(v: &[u16]) -> (r: Self)
        ensures
            r.codes() == v@,
            v@.len() == 1 && Self::named_of(v@[0]) is Some ==> Some(r) == Self::named_of(v@[0]),
            !(v@.len() == 1 && Self::named_of(v@[0]) is Some) ==> r is UnknownValue,
    {
        if v.len() != 1 {
            return Flash::UnknownValue(copy_u16s(v));
        }
        match v[0] {
            0 => Flash::NoFlash,
            1 => Flash::Fired,
            5 => Flash::FiredReturnNotDetected,
            7 => Flash::FiredReturnDetected,
            8 => Flash::OnDidNotFire,
            9 => Flash::OnFired,
            13 => Flash::OnReturnNotDetected,
            15 => Flash::OnReturnDetected,
            16 => Flash::OffDidNotFire,
            20 => Flash::OffDidNotFireReturnNotDetected,
            24 => Flash::AutoDidNotFire,
            25 => Flash::AutoFired,
            29 => Flash::AutoFiredReturnNotDetected,
            31 => Flash::AutoFiredReturnDetected,
            32 => Flash::NoFlashFunction,
            48 => Flash::OffNoFlashFunction,
            65 => Flash::FiredRedEyeReduction,
            69 => Flash::FiredRedEyeReductionReturnNotDetected,
            71 => Flash::FiredRedEyeReductionReturnDetected,
            73 => Flash::OnRedEyeReduction,
            77 => Flash::OnRedEyeReductionReturnNotDetected,
            79 => Flash::OnRedEyeReductionReturnDetected,
            80 => Flash::OffRedEyeReduction,
            88 => Flash::AutoDidNotFireRedEyeReduction,
            89 => Flash::AutoFiredRedEyeReduction,
            93 => Flash::AutoFiredRedEyeReductionReturnNotDetected,
            95 => Flash::AutoFiredRedEyeReductionReturnDetected,
            _ => Flash::UnknownValue(copy_u16s(v)),
        }
    }

    /// Decodes codes stored one per byte.
    pub fn from_u8_vec(v: &[u8]) -> (r: Self)
        ensures
            r.codes() == v@.map_values(|b: u8| b as u16),
            v@.len() == 1 && Self::named_of(v@[0] as u16) is Some ==> Some(r) == Self::named_of(v@[0] as u16),
            !(v@.len() == 1 && Self::named_of(v@[0] as u16) is Some) ==> r is UnknownValue,
    {
        let w = widen_bytes(v);
        Self::from_vec(w.as_slice())
    }

    /// What `from_vec` gives for the codes `c`, as far as it is fixed.
    pub fn to_string(&self) -> (r: String)
        ensures
            r@ == self.text(),
    {
        match self {
            Flash::NoFlash => String::from_str("NoFlash"),
            Flash::Fired => String::from_str("Fired"),
            Flash::FiredReturnNotDetected => String::from_str("FiredReturnNotDetected"),
            Flash::FiredReturnDetected => String::from_str("FiredReturnDetected"),
            Flash::OnDidNotFire => String::from_str("OnDidNotFire"),
            Flash::OnFired => String::from_str("OnFired"),
            Flash::OnReturnNotDetected => String::from_str("OnReturnNotDetected"),
            Flash::OnReturnDetected => String::from_str("OnReturnDetected"),
            Flash::OffDidNotFire => String::from_str("OffDidNotFire"),
            Flash::OffDidNotFireReturnNotDetected => String::from_str("OffDidNotFireReturnNotDetected"),
            Flash::AutoDidNotFire => String::from_str("AutoDidNotFire"),
            Flash::AutoFired => String::from_str("AutoFired"),
            Flash::AutoFiredReturnNotDetected => String::from_str("AutoFiredReturnNotDetected"),
            Flash::AutoFiredReturnDetected => String::from_str("AutoFiredReturnDetected"),
            Flash::NoFlashFunction => String::from_str("NoFlashFunction"),
            Flash::OffNoFlashFunction => String::from_str("OffNoFlashFunction"),
            Flash::FiredRedEyeReduction => String::from_str("FiredRedEyeReduction"),
            Flash::FiredRedEyeReductionReturnNotDetected => String::from_str("FiredRedEyeReductionReturnNotDetected"),
            Flash::FiredRedEyeReductionReturnDetected => String::from_str("FiredRedEyeReductionReturnDetected"),
            Flash::OnRedEyeReduction => String::from_str("OnRedEyeReduction"),
            Flash::OnRedEyeReductionReturnNotDetected => String::from_str("OnRedEyeReductionReturnNotDetected"),
            Flash::OnRedEyeReductionReturnDetected => String::from_str("OnRedEyeReductionReturnDetected"),
            Flash::OffRedEyeReduction => String::from_str("OffRedEyeReduction"),
            Flash::AutoDidNotFireRedEyeReduction => String::from_str("AutoDidNotFireRedEyeReduction"),
            Flash::AutoFiredRedEyeReduction => String::from_str("AutoFiredRedEyeReduction"),
            Flash::AutoFiredRedEyeReductionReturnNotDetected => String::from_str("AutoFiredRedEyeReductionReturnNotDetected"),
            Flash::AutoFiredRedEyeReductionReturnDetected => String::from_str("AutoFiredRedEyeReductionReturnDetected"),
            Flash::UnknownValue(v) => {
                let mut s = String::from_str("UnknownValue");
                let w = widen_u16s(v.as_slice());
                let t = list_text(w.as_slice());
                s.append(t.as_str());
                s
            }
        }
    }

    /// The value used when nothing is known yet.
    pub fn unknown() -> (r: Self)
        ensures
            r is UnknownValue,
            r.codes() == seq![255u16],
    {
        Flash::UnknownValue(vec![255])
    }

    /// The first raw code.
    pub fn to_u16(&self) -> (r: u16)
        requires
            self.codes().len() > 0,
        ensures
            r == self.codes()[0],
    {
        let v = self.to_vec();
        v[0]
    }

    pub fn from_u16(value: u16) -> (r: Self)
        ensures
            r.codes() == seq![value],
            Self::named_of(value) is Some ==> Some(r) == Self::named_of(value),
            Self::named_of(value) is None ==> r is UnknownValue,
    {
        let v: Vec<u16> = vec![value];
        proof {
            assert(v@ =~= seq![value]);
        }
        Self::from_vec(v.as_slice())
    }

    /// Every named value with its code, and the value itself at the end when it is unknown.
    pub fn all(&self) -> (r: Vec<(u16, Self)>)
        ensures
            r@.len() == (if self is UnknownValue { 28nat } else { 27nat }),
            forall|i: int| 0 <= i < 27 ==> r@[i].0 == Self::listed()[i] && Self::named_of(r@[i].0) == Some(r@[i].1),
            self is UnknownValue ==> r@[27].0 == 255 && r@[27].1 is UnknownValue && r@[27].1.codes() == self.codes(),
    {
        let mut r: Vec<(u16, Self)> = Vec::new();
        r.push((0, Flash::NoFlash));
        r.push((1, Flash::Fired));
        r.push((5, Flash::FiredReturnNotDetected));
        r.push((7, Flash::FiredReturnDetected));
        r.push((8, Flash::OnDidNotFire));
        r.push((9, Flash::OnFired));
        r.push((13, Flash::OnReturnNotDetected));
        r.push((15, Flash::OnReturnDetected));
        r.push((16, Flash::OffDidNotFire));
        r.push((20, Flash::OffDidNotFireReturnNotDetected));
        r.push((24, Flash::AutoDidNotFire));
        r.push((25, Flash::AutoFired));
        r.push((29, Flash::AutoFiredReturnNotDetected));
        r.push((31, Flash::AutoFiredReturnDetected));
        r.push((32, Flash::NoFlashFunction));
        r.push((48, Flash::OffNoFlashFunction));
        r.push((65, Flash::FiredRedEyeReduction));
        r.push((69, Flash::FiredRedEyeReductionReturnNotDetected));
        r.push((71, Flash::FiredRedEyeReductionReturnDetected));
        r.push((73, Flash::OnRedEyeReduction));
        r.push((77, Flash::OnRedEyeReductionReturnNotDetected));
        r.push((79, Flash::OnRedEyeReductionReturnDetected));
        r.push((80, Flash::OffRedEyeReduction));
        r.push((88, Flash::AutoDidNotFireRedEyeReduction));
        r.push((89, Flash::AutoFiredRedEyeReduction));
        r.push((93, Flash::AutoFiredRedEyeReductionReturnNotDetected));
        r.push((95, Flash::AutoFiredRedEyeReductionReturnDetected));
        if let Flash::UnknownValue(v) = self {
            r.push((255, Flash::UnknownValue(copy_u16s(v.as_slice()))));
        }
        r
    }

    /// Decoding the code of a named value gives that value back.
    pub proof fn lemma_named_round_trip(x: Self)
        requires
            !(x is UnknownValue),
        ensures
            x.codes().len() == 1,
            Self::named_of(x.codes()[0]) == Some(x),
            Self::decodes(x.codes(), x),
    {
    }
}

/// Which sensitivity value the ISO tag holds.
#[allow(non_camel_case_types)]
#[derive(Clone, Debug, PartialEq, Eq)]
pub enum SensitivityType {
    Unknown,
    StandardOutputSensitivity,
    RecommendedExposureIndex,
    ISOSpeed,
    StandardOutputSensitivityAndRecommendedExposureIndex,
    StandardOutputSensitivityAndISOSpeed,
    RecommendedExposureIndexAndISOSpeed,
    StandardOutputSensitivityRecommendedExposureIndexAndISOSpeed,
    UnknownValue(Vec<u16>),
}

impl SensitivityType {
    /// The named value a single code stands for, if any.
    pub open spec fn named_of(c: u16) -> Option<SensitivityType> {
        if c == 0 {
            Some(SensitivityType::Unknown)
        } else if c == 1 {
            Some(SensitivityType::StandardOutputSensitivity)
        } else if c == 2 {
            Some(SensitivityType::RecommendedExposureIndex)
        } else if c == 3 {
            Some(SensitivityType::ISOSpeed)
        } else if c == 4 {
            Some(SensitivityType::StandardOutputSensitivityAndRecommendedExposureIndex)
        } else if c == 5 {
            Some(SensitivityType::StandardOutputSensitivityAndISOSpeed)
        } else if c == 6 {
            Some(SensitivityType::RecommendedExposureIndexAndISOSpeed)
        } else if c == 7 {
            Some(SensitivityType::StandardOutputSensitivityRecommendedExposureIndexAndISOSpeed)
        } else {
            None
        }
    }

    /// `r` is what decoding the raw codes `v` gives: the named value for one known code, an
    /// unknown value holding `v` otherwise.
    pub open spec fn decodes(v: Seq<u16>, r: Self) -> bool {
        &&& r.codes() == v
        &&& v.len() == 1 && Self::named_of(v[0]) is Some ==> Some(r) == Self::named_of(v[0])
        &&& !(v.len() == 1 && Self::named_of(v[0]) is Some) ==> r is UnknownValue
    }

    /// The raw codes of the value.
    pub open spec fn codes(&self) -> Seq<u16> {
        match self {
            SensitivityType::Unknown => seq![0u16],
            SensitivityType::StandardOutputSensitivity => seq![1u16],
            SensitivityType::RecommendedExposureIndex => seq![2u16],
            SensitivityType::ISOSpeed => seq![3u16],
            SensitivityType::StandardOutputSensitivityAndRecommendedExposureIndex => seq![4u16],
            SensitivityType::StandardOutputSensitivityAndISOSpeed => seq![5u16],
            SensitivityType::RecommendedExposureIndexAndISOSpeed => seq![6u16],
            SensitivityType::StandardOutputSensitivityRecommendedExposureIndexAndISOSpeed => seq![7u16],
            SensitivityType::UnknownValue(v) => v@,
        }
    }

    /// The codes of the named values, in listing order.
    pub open spec fn listed() -> Seq<u16> {
        seq![0u16, 1u16, 2u16, 3u16, 4u16, 5u16, 6u16, 7u16]
    }

    /// Display name of the value.
    pub open spec fn text(&self) -> Seq<char> {
        match self {
            SensitivityType::Unknown => "Unknown"@,
            SensitivityType::StandardOutputSensitivity => "StandardOutputSensitivity"@,
            SensitivityType::RecommendedExposureIndex => "RecommendedExposureIndex"@,
            SensitivityType::ISOSpeed => "ISOSpeed"@,
            SensitivityType::StandardOutputSensitivityAndRecommendedExposureIndex => "StandardOutputSensitivityAndRecommendedExposureIndex"@,
            SensitivityType::StandardOutputSensitivityAndISOSpeed => "StandardOutputSensitivityAndISOSpeed"@,
            SensitivityType::RecommendedExposureIndexAndISOSpeed => "RecommendedExposureIndexAndISOSpeed"@,
            SensitivityType::StandardOutputSensitivityRecommendedExposureIndexAndISOSpeed => "StandardOutputSensitivityRecommendedExposureIndexAndISOSpeed"@,
            SensitivityType::UnknownValue(v) => "UnknownValue"@ + list_dec(v@.map_values(|x: u16| x as int)),
        }
    }

    pub fn to_vec(&self) -> (r: Vec<u16>)
        ensures
            r@ == self.codes(),
    {
        match self {
            SensitivityType::Unknown => vec![0],
            SensitivityType::StandardOutputSensitivity => vec![1],
            SensitivityType::RecommendedExposureIndex => vec![2],
            SensitivityType::ISOSpeed => vec![3],
            SensitivityType::StandardOutputSensitivityAndRecommendedExposureIndex => vec![4],
            SensitivityType::StandardOutputSensitivityAndISOSpeed => vec![5],
            SensitivityType::RecommendedExposureIndexAndISOSpeed => vec![6],
            SensitivityType::StandardOutputSensitivityRecommendedExposureIndexAndISOSpeed => vec![7],
            SensitivityType::UnknownValue(v) => copy_u16s(v.as_slice()),
        }
    }

    /// Decodes raw codes; anything but one known code is kept as it is.
    pub fn from_vec(v: &[u16]) -> (r: Self)
        ensures
            r.codes() == v@,
            v@.len() == 1 && Self::named_of(v@[0]) is Some ==> Some(r) == Self::named_of(v@[0]),
            !(v@.len() == 1 && Self::named_of(v@[0]) is Some) ==> r is UnknownValue,
    {
        if v.len() != 1 {
            return SensitivityType::UnknownValue(copy_u16s(v));
        }
        match v[0] {
            0 => SensitivityType::Unknown,
            1 => SensitivityType::StandardOutputSensitivity,
            2 => SensitivityType::RecommendedExposureIndex,
            3 => SensitivityType::ISOSpeed,
            4 => SensitivityType::StandardOutputSensitivityAndRecommendedExposureIndex,
            5 => SensitivityType::StandardOutputSensitivityAndISOSpeed,
            6 => SensitivityType::RecommendedExposureIndexAndISOSpeed,
            7 => SensitivityType::StandardOutputSensitivityRecommendedExposureIndexAndISOSpeed,
            _ => SensitivityType::UnknownValue(copy_u16s(v)),
        }
    }

    /// Decodes codes stored one per byte.
    pub fn from_u8_vec(v: &[u8]) -> (r: Self)
        ensures
            r.codes() == v@.map_values(|b: u8| b as u16),
            v@.len() == 1 && Self::named_of(v@[0] as u16) is Some ==> Some(r) == Self::named_of(v@[0] as u16),
            !(v@.len() == 1 && Self::named_of(v@[0] as u16) is Some) ==> r is UnknownValue,
    {
        let w = widen_bytes(v);
        Self::from_vec(w.as_slice())
    }

    /// What `from_vec` gives for the codes `c`, as far as it is fixed.
    pub fn to_string(&self) -> (r: String)
        ensures
            r@ == self.text(),
    {
        match self {
            SensitivityType::Unknown => String::from_str("Unknown"),
            SensitivityType::StandardOutputSensitivity => String::from_str("StandardOutputSensitivity"),
            SensitivityType::RecommendedExposureIndex => String::from_str("RecommendedExposureIndex"),
            SensitivityType::ISOSpeed => String::from_str("ISOSpeed"),
            SensitivityType::StandardOutputSensitivityAndRecommendedExposureIndex => String::from_str("StandardOutputSensitivityAndRecommendedExposureIndex"),
            SensitivityType::StandardOutputSensitivityAndISOSpeed => String::from_str("StandardOutputSensitivityAndISOSpeed"),
            SensitivityType::RecommendedExposureIndexAndISOSpeed => String::from_str("RecommendedExposureIndexAndISOSpeed"),
            SensitivityType::StandardOutputSensitivityRecommendedExposureIndexAndISOSpeed => String::from_str("StandardOutputSensitivityRecommendedExposureIndexAndISOSpeed"),
            SensitivityType::UnknownValue(v) => {
                let mut s = String::from_str("UnknownValue");
                let w = widen_u16s(v.as_slice());
                let t = list_text(w.as_slice());
                s.append(t.as_str());
                s
            }
        }
    }

    /// The value used when nothing is known yet.
    pub fn unknown() -> (r: Self)
        ensures
            r is UnknownValue,
            r.codes() == seq![65535u16],
    {
        SensitivityType::UnknownValue(vec![65535])
    }

    /// The first raw code.
    pub fn to_u16(&self) -> (r: u16)
        requires
            self.codes().len() > 0,
        ensures
            r == self.codes()[0],
    {
        let v = self.to_vec();
        v[0]
    }

    pub fn from_u16(value: u16) -> (r: Self)
        ensures
            r.codes() == seq![value],
            Self::named_of(value) is Some ==> Some(r) == Self::named_of(value),
            Self::named_of(value) is None ==> r is UnknownValue,
    {
        let v: Vec<u16> = vec![value];
        proof {
            assert(v@ =~= seq![value]);
        }
        Self::from_vec(v.as_slice())
    }

    /// Every named value with its code, and the value itself at the end when it is unknown.
    pub fn all(&self) -> (r: Vec<(u16, Self)>)
        ensures
            r@.len() == (if self is UnknownValue { 9nat } else { 8nat }),
            forall|i: int| 0 <= i < 8 ==> r@[i].0 == Self::listed()[i] && Self::named_of(r@[i].0) == Some(r@[i].1),
            self is UnknownValue ==> r@[8].0 == 65535 && r@[8].1 is UnknownValue && r@[8].1.codes() == self.codes(),
    {
        let mut r: Vec<(u16, Self)> = Vec::new();
        r.push((0, SensitivityType::Unknown));
        r.push((1, SensitivityType::StandardOutputSensitivity));
        r.push((2, SensitivityType::RecommendedExposureIndex));
        r.push((3, SensitivityType::ISOSpeed));
        r.push((4, SensitivityType::StandardOutputSensitivityAndRecommendedExposureIndex));
        r.push((5, SensitivityType::StandardOutputSensitivityAndISOSpeed));
        r.push((6, SensitivityType::RecommendedExposureIndexAndISOSpeed));
        r.push((7, SensitivityType::StandardOutputSensitivityRecommendedExposureIndexAndISOSpeed));
        if let SensitivityType::UnknownValue(v) = self {
            r.push((65535, SensitivityType::UnknownValue(copy_u16s(v.as_slice()))));
        }
        r
    }

    /// Decoding the code of a named value gives that value back.
    pub proof fn lemma_named_round_trip(x: Self)
        requires
            !(x is UnknownValue),
        ensures
            x.codes().len() == 1,
            Self::named_of(x.codes()[0]) == Some(x),
            Self::decodes(x.codes(), x),
    {
    }
}

/// Kind of image sensor.
#[allow(non_camel_case_types)]
#[derive(Clone, Debug, PartialEq, Eq)]
pub enum SensingMethod {
    MonochromeArea,
    OneChipColorArea,
    TwoChipColorArea,
    ThreeChipColorArea,
    ColorSequentialArea,
    MonochromeLinear,
    Trilinear,
    ColorSequentialLinear,
    UnknownValue(Vec<u16>),
}

impl SensingMethod {
    /// The named value a single code stands for, if any.
    pub open spec fn named_of(c: u16) -> Option<SensingMethod> {
        if c == 1 {
            Some(SensingMethod::MonochromeArea)
        } else if c == 2 {
            Some(SensingMethod::OneChipColorArea)
        } else if c == 3 {
            Some(SensingMethod::TwoChipColorArea)
        } else if c == 4 {
            Some(SensingMethod::ThreeChipColorArea)
        } else if c == 5 {
            Some(SensingMethod::ColorSequentialArea)
        } else if c == 6 {
            Some(SensingMethod::MonochromeLinear)
        } else if c == 7 {
            Some(SensingMethod::Trilinear)
        } else if c == 8 {
            Some(SensingMethod::ColorSequentialLinear)
        } else {
            None
        }
    }

    /// `r` is what decoding the raw codes `v` gives: the named value for one known code, an
    /// unknown value holding `v` otherwise.
    pub open spec fn decodes(v: Seq<u16>, r: Self) -> bool {
        &&& r.codes() == v
        &&& v.len() == 1 && Self::named_of(v[0]) is Some ==> Some(r) == Self::named_of(v[0])
        &&& !(v.len() == 1 && Self::named_of(v[0]) is Some) ==> r is UnknownValue
    }

    /// The raw codes of the value.
    pub open spec fn codes(&self) -> Seq<u16> {
        match self {
            SensingMethod::MonochromeArea => seq![1u16],
            SensingMethod::OneChipColorArea => seq![2u16],
            SensingMethod::TwoChipColorArea => seq![3u16],
            SensingMethod::ThreeChipColorArea => seq![4u16],
            SensingMethod::ColorSequentialArea => seq![5u16],
            SensingMethod::MonochromeLinear => seq![6u16],
            SensingMethod::Trilinear => seq![7u16],
            SensingMethod::ColorSequentialLinear => seq![8u16],
            SensingMethod::UnknownValue(v) => v@,
        }
    }

    /// The codes of the named values, in listing order.
    pub open spec fn listed() -> Seq<u16> {
        seq![1u16, 2u16, 3u16, 4u16, 5u16, 6u16, 7u16, 8u16]
    }

    /// Display name of the value.
    pub open spec fn text(&self) -> Seq<char> {
        match self {
            SensingMethod::MonochromeArea => "MonochromeArea"@,
            SensingMethod::OneChipColorArea => "OneChipColorArea"@,
            SensingMethod::TwoChipColorArea => "TwoChipColorArea"@,
            SensingMethod::ThreeChipColorArea => "ThreeChipColorArea"@,
            SensingMethod::ColorSequentialArea => "ColorSequentialArea"@,
            SensingMethod::MonochromeLinear => "MonochromeLinear"@,
            SensingMethod::Trilinear => "Trilinear"@,
            SensingMethod::ColorSequentialLinear => "ColorSequentialLinear"@,
            SensingMethod::UnknownValue(v) => "UnknownValue"@ + list_dec(v@.map_values(|x: u16| x as int)),
        }
    }

    pub fn to_vec(&self) -> (r: Vec<u16>)
        ensures
            r@ == self.codes(),
    {
        match self {
            SensingMethod::MonochromeArea => vec![1],
            SensingMethod::OneChipColorArea => vec![2],
            SensingMethod::TwoChipColorArea => vec![3],
            SensingMethod::ThreeChipColorArea => vec![4],
            SensingMethod::ColorSequentialArea => vec![5],
            SensingMethod::MonochromeLinear => vec![6],
            SensingMethod::Trilinear => vec![7],
            SensingMethod::ColorSequentialLinear => vec![8],
            SensingMethod::UnknownValue(v) => copy_u16s(v.as_slice()),
        }
    }

    /// Decodes raw codes; anything but one known code is kept as it is.
    pub fn from_vec(v: &[u16]) -> (r: Self)
        ensures
            r.codes() == v@,
            v@.len() == 1 && Self::named_of(v@[0]) is Some ==> Some(r) == Self::named_of(v@[0]),
            !(v@.len() == 1 && Self::named_of(v@[0]) is Some) ==> r is UnknownValue,
    {
        if v.len() != 1 {
            return SensingMethod::UnknownValue(copy_u16s(v));
        }
        match v[0] {
            1 => SensingMethod::MonochromeArea,
            2 => SensingMethod::OneChipColorArea,
            3 => SensingMethod::TwoChipColorArea,
            4 => SensingMethod::ThreeChipColorArea,
            5 => SensingMethod::ColorSequentialArea,
            6 => SensingMethod::MonochromeLinear,
            7 => SensingMethod::Trilinear,
            8 => SensingMethod::ColorSequentialLinear,
            _ => SensingMethod::UnknownValue(copy_u16s(v)),
        }
    }

    /// Decodes codes stored one per byte.
    pub fn from_u8_vec(v: &[u8]) -> (r: Self)
        ensures
            r.codes() == v@.map_values(|b: u8| b as u16),
            v@.len() == 1 && Self::named_of(v@[0] as u16) is Some ==> Some(r) == Self::named_of(v@[0] as u16),
            !(v@.len() == 1 && Self::named_of(v@[0] as u16) is Some) ==> r is UnknownValue,
    {
        let w = widen_bytes(v);
        Self::from_vec(w.as_slice())
    }

    /// What `from_vec` gives for the codes `c`, as far as it is fixed.
    pub fn to_string(&self) -> (r: String)
        ensures
            r@ == self.text(),
    {
        match self {
            SensingMethod::MonochromeArea => String::from_str("MonochromeArea"),
            SensingMethod::OneChipColorArea => String::from_str("OneChipColorArea"),
            SensingMethod::TwoChipColorArea => String::from_str("TwoChipColorArea"),
            SensingMethod::ThreeChipColorArea => String::from_str("ThreeChipColorArea"),
            SensingMethod::ColorSequentialArea => String::from_str("ColorSequentialArea"),
            SensingMethod::MonochromeLinear => String::from_str("MonochromeLinear"),
            SensingMethod::Trilinear => String::from_str("Trilinear"),
            SensingMethod::ColorSequentialLinear => String::from_str("ColorSequentialLinear"),
            SensingMethod::UnknownValue(v) => {
                let mut s = String::from_str("UnknownValue");
                let w = widen_u16s(v.as_slice());
                let t = list_text(w.as_slice());
                s.append(t.as_str());
                s
            }
        }
    }

    /// The value used when nothing is known yet.
    pub fn unknown() -> (r: Self)
        ensures
            r is UnknownValue,
            r.codes() == seq![0u16],
    {
        SensingMethod::UnknownValue(vec![0])
    }

    /// The first raw code.
    pub fn to_u16(&self) -> (r: u16)
        requires
            self.codes().len() > 0,
        ensures
            r == self.codes()[0],
    {
        let v = self.to_vec();
        v[0]
    }

    pub fn from_u16(value: u16) -> (r: Self)
        ensures
            r.codes() == seq![value],
            Self::named_of(value) is Some ==> Some(r) == Self::named_of(value),
            Self::named_of(value) is None ==> r is UnknownValue,
    {
        let v: Vec<u16> = vec![value];
        proof {
            assert(v@ =~= seq![value]);
        }
        Self::from_vec(v.as_slice())
    }

    /// Every named value with its code, and the value itself at the end when it is unknown.
    pub fn all(&self) -> (r: Vec<(u16, Self)>)
        ensures
            r@.len() == (if self is UnknownValue { 9nat } else { 8nat }),
            forall|i: int| 0 <= i < 8 ==> r@[i].0 == Self::listed()[i] && Self::named_of(r@[i].0) == Some(r@[i].1),
            self is UnknownValue ==> r@[8].0 == 0 && r@[8].1 is UnknownValue && r@[8].1.codes() == self.codes(),
    {
        let mut r: Vec<(u16, Self)> = Vec::new();
        r.push((1, SensingMethod::MonochromeArea));
        r.push((2, SensingMethod::OneChipColorArea));
        r.push((3, SensingMethod::TwoChipColorArea));
        r.push((4, SensingMethod::ThreeChipColorArea));
        r.push((5, SensingMethod::ColorSequentialArea));
        r.push((6, SensingMethod::MonochromeLinear));
        r.push((7, SensingMethod::Trilinear));
        r.push((8, SensingMethod::ColorSequentialLinear));
        if let SensingMethod::UnknownValue(v) = self {
            r.push((0, SensingMethod::UnknownValue(copy_u16s(v.as_slice()))));
        }
        r
    }

    /// Decoding the code of a named value gives that value back.
    pub proof fn lemma_named_round_trip(x: Self)
        requires
            !(x is UnknownValue),
        ensures
            x.codes().len() == 1,
            Self::named_of(x.codes()[0]) == Some(x),
            Self::decodes(x.codes(), x),
    {
    }
}

/// Whether the image was photographed directly.
#[allow(non_camel_case_types)]
#[derive(Clone, Debug, PartialEq, Eq)]
pub enum SceneType {
    DirectlyPhotographed,
    UnknownValue(Vec<u16>),
}

impl SceneType {
    /// The named value a single code stands for, if any.
    pub open spec fn named_of(c: u16) -> Option<SceneType> {
        if c == 1 {
            Some(SceneType::DirectlyPhotographed)
        } else {
            None
        }
    }

    /// `r` is what decoding the raw codes `v` gives: the named value for one known code, an
    /// unknown value holding `v` otherwise.
    pub open spec fn decodes(v: Seq<u16>, r: Self) -> bool {
        &&& r.codes() == v
        &&& v.len() == 1 && Self::named_of(v[0]) is Some ==> Some(r) == Self::named_of(v[0])
        &&& !(v.len() == 1 && Self::named_of(v[0]) is Some) ==> r is UnknownValue
    }

    /// The raw codes of the value.
    pub open spec fn codes(&self) -> Seq<u16> {
        match self {
            SceneType::DirectlyPhotographed => seq![1u16],
            SceneType::UnknownValue(v) => v@,
        }
    }

    /// The codes of the named values, in listing order.
    pub open spec fn listed() -> Seq<u16> {
        seq![1u16]
    }

    /// Display name of the value.
    pub open spec fn text(&self) -> Seq<char> {
        match self {
            SceneType::DirectlyPhotographed => "DirectlyPhotographed"@,
            SceneType::UnknownValue(v) => "UnknownValue"@ + list_dec(v@.map_values(|x: u16| x as int)),
        }
    }

    pub fn to_vec(&self) -> (r: Vec<u16>)
        ensures
            r@ == self.codes(),
    {
        match self {
            SceneType::DirectlyPhotographed => vec![1],
            SceneType::UnknownValue(v) => copy_u16s(v.as_slice()),
        }
    }

    /// Decodes raw codes; anything but one known code is kept as it is.
    pub fn from_vec(v: &[u16]) -> (r: Self)
        ensures
            r.codes() == v@,
            v@.len() == 1 && Self::named_of(v@[0]) is Some ==> Some(r) == Self::named_of(v@[0]),
            !(v@.len() == 1 && Self::named_of(v@[0]) is Some) ==> r is UnknownValue,
    {
        if v.len() != 1 {
            return SceneType::UnknownValue(copy_u16s(v));
        }
        match v[0] {
            1 => SceneType::DirectlyPhotographed,
            _ => SceneType::UnknownValue(copy_u16s(v)),
        }
    }

    /// Decodes codes stored one per byte.
    pub fn from_u8_vec(v: &[u8]) -> (r: Self)
        ensures
            r.codes() == v@.map_values(|b: u8| b as u16),
            v@.len() == 1 && Self::named_of(v@[0] as u16) is Some ==> Some(r) == Self::named_of(v@[0] as u16),
            !(v@.len() == 1 && Self::named_of(v@[0] as u16) is Some) ==> r is UnknownValue,
    {
        let w = widen_bytes(v);
        Self::from_vec(w.as_slice())
    }

    /// What `from_vec` gives for the codes `c`, as far as it is fixed.
    pub fn to_string(&self) -> (r: String)
        ensures
            r@ == self.text(),
    {
        match self {
            SceneType::DirectlyPhotographed => String::from_str("DirectlyPhotographed"),
            SceneType::UnknownValue(v) => {
                let mut s = String::from_str("UnknownValue");
                let w = widen_u16s(v.as_slice());
                let t = list_text(w.as_slice());
                s.append(t.as_str());
                s
            }
        }
    }

    /// The value used when nothing is known yet.
    pub fn unknown() -> (r: Self)
        ensures
            r is UnknownValue,
            r.codes() == seq![0u16],
    {
        SceneType::UnknownValue(vec![0])
    }

    /// The first raw code.
    pub fn to_u16(&self) -> (r: u16)
        requires
            self.codes().len() > 0,
        ensures
            r == self.codes()[0],
    {
        let v = self.to_vec();
        v[0]
    }

    pub fn from_u16(value: u16) -> (r: Self)
        ensures
            r.codes() == seq![value],
            Self::named_of(value) is Some ==> Some(r) == Self::named_of(value),
            Self::named_of(value) is None ==> r is UnknownValue,
    {
        let v: Vec<u16> = vec![value];
        proof {
            assert(v@ =~= seq![value]);
        }
        Self::from_vec(v.as_slice())
    }

    /// Every named value with its code, and the value itself at the end when it is unknown.
    pub fn all(&self) -> (r: Vec<(u16, Self)>)
        ensures
            r@.len() == (if self is UnknownValue { 2nat } else { 1nat }),
            forall|i: int| 0 <= i < 1 ==> r@[i].0 == Self::listed()[i] && Self::named_of(r@[i].0) == Some(r@[i].1),
            self is UnknownValue ==> r@[1].0 == 0 && r@[1].1 is UnknownValue && r@[1].1.codes() == self.codes(),
    {
        let mut r: Vec<(u16, Self)> = Vec::new();
        r.push((1, SceneType::DirectlyPhotographed));
        if let SceneType::UnknownValue(v) = self {
            r.push((0, SceneType::UnknownValue(copy_u16s(v.as_slice()))));
        }
        r
    }

    /// Decoding the code of a named value gives that value back.
    pub proof fn lemma_named_round_trip(x: Self)
        requires
            !(x is UnknownValue),
        ensures
            x.codes().len() == 1,
            Self::named_of(x.codes()[0]) == Some(x),
            Self::decodes(x.codes(), x),
    {
    }
}

/// Unit of the focal plane resolution.
#[allow(non_camel_case_types)]
#[derive(Clone, Debug, PartialEq, Eq)]
pub enum FocalPlaneResolutionUnit {
    NoUnit,
    inches,
    cm,
    mm,
    um,
    UnknownValue(Vec<u16>),
}

impl FocalPlaneResolutionUnit {
    /// The named value a single code stands for, if any.
    pub open spec fn named_of(c: u16) -> Option<FocalPlaneResolutionUnit> {
        if c == 1 {
            Some(FocalPlaneResolutionUnit::NoUnit)
        } else if c == 2 {
            Some(FocalPlaneResolutionUnit::inches)
        } else if c == 3 {
            Some(FocalPlaneResolutionUnit::cm)
        } else if c == 4 {
            Some(FocalPlaneResolutionUnit::mm)
        } else if c == 5 {
            Some(FocalPlaneResolutionUnit::um)
        } else {
            None
        }
    }

    /// `r` is what decoding the raw codes `v` gives: the named value for one known code, an
    /// unknown value holding `v` otherwise.
    pub open spec fn decodes(v: Seq<u16>, r: Self) -> bool {
        &&& r.codes() == v
        &&& v.len() == 1 && Self::named_of(v[0]) is Some ==> Some(r) == Self::named_of(v[0])
        &&& !(v.len() == 1 && Self::named_of(v[0]) is Some) ==> r is UnknownValue
    }

    /// The raw codes of the value.
    pub open spec fn codes(&self) -> Seq<u16> {
        match self {
            FocalPlaneResolutionUnit::NoUnit => seq![1u16],
            FocalPlaneResolutionUnit::inches => seq![2u16],
            FocalPlaneResolutionUnit::cm => seq![3u16],
            FocalPlaneResolutionUnit::mm => seq![4u16],
            FocalPlaneResolutionUnit::um => seq![5u16],
            FocalPlaneResolutionUnit::UnknownValue(v) => v@,
        }
    }

    /// The codes of the named values, in listing order.
    pub open spec fn listed() -> Seq<u16> {
        seq![1u16, 2u16, 3u16, 4u16, 5u16]
    }

    /// Display name of the value.
    pub open spec fn text(&self) -> Seq<char> {
        match self {
            FocalPlaneResolutionUnit::NoUnit => "NoUnit"@,
            FocalPlaneResolutionUnit::inches => "inches"@,
            FocalPlaneResolutionUnit::cm => "cm"@,
            FocalPlaneResolutionUnit::mm => "mm"@,
            FocalPlaneResolutionUnit::um => "um"@,
            FocalPlaneResolutionUnit::UnknownValue(v) => "UnknownValue"@ + list_dec(v@.map_values(|x: u16| x as int)),
        }
    }

    pub fn to_vec(&self) -> (r: Vec<u16>)
        ensures
            r@ == self.codes(),
    {
        match self {
            FocalPlaneResolutionUnit::NoUnit => vec![1],
            FocalPlaneResolutionUnit::inches => vec![2],
            FocalPlaneResolutionUnit::cm => vec![3],
            FocalPlaneResolutionUnit::mm => vec![4],
            FocalPlaneResolutionUnit::um => vec![5],
            FocalPlaneResolutionUnit::UnknownValue(v) => copy_u16s(v.as_slice()),
        }
    }

    /// Decodes raw codes; anything but one known code is kept as it is.
    pub fn from_vec(v: &[u16]) -> (r: Self)
        ensures
            r.codes() == v@,
            v@.len() == 1 && Self::named_of(v@[0]) is Some ==> Some(r) == Self::named_of(v@[0]),
            !(v@.len() == 1 && Self::named_of(v@[0]) is Some) ==> r is UnknownValue,
    {
        if v.len() != 1 {
            return FocalPlaneResolutionUnit::UnknownValue(copy_u16s(v));
        }
        match v[0] {
            1 => FocalPlaneResolutionUnit::NoUnit,
            2 => FocalPlaneResolutionUnit::inches,
            3 => FocalPlaneResolutionUnit::cm,
            4 => FocalPlaneResolutionUnit::mm,
            5 => FocalPlaneResolutionUnit::um,
            _ => FocalPlaneResolutionUnit::UnknownValue(copy_u16s(v)),
        }
    }

    /// Decodes codes stored one per byte.
    pub fn from_u8_vec(v: &[u8]) -> (r: Self)
        ensures
            r.codes() == v@.map_values(|b: u8| b as u16),
            v@.len() == 1 && Self::named_of(v@[0] as u16) is Some ==> Some(r) == Self::named_of(v@[0] as u16),
            !(v@.len() == 1 && Self::named_of(v@[0] as u16) is Some) ==> r is UnknownValue,
    {
        let w = widen_bytes(v);
        Self::from_vec(w.as_slice())
    }

    /// What `from_vec` gives for the codes `c`, as far as it is fixed.
    pub fn to_string(&self) -> (r: String)
        ensures
            r@ == self.text(),
    {
        match self {
            FocalPlaneResolutionUnit::NoUnit => String::from_str("NoUnit"),
            FocalPlaneResolutionUnit::inches => String::from_str("inches"),
            FocalPlaneResolutionUnit::cm => String::from_str("cm"),
            FocalPlaneResolutionUnit::mm => String::from_str("mm"),
            FocalPlaneResolutionUnit::um => String::from_str("um"),
            FocalPlaneResolutionUnit::UnknownValue(v) => {
                let mut s = String::from_str("UnknownValue");
                let w = widen_u16s(v.as_slice());
                let t = list_text(w.as_slice());
                s.append(t.as_str());
                s
            }
        }
    }

    /// The value used when nothing is known yet.
    pub fn unknown() -> (r: Self)
        ensures
            r is UnknownValue,
            r.codes() == seq![0u16],
    {
        FocalPlaneResolutionUnit::UnknownValue(vec![0])
    }

    /// The first raw code.
    pub fn to_u16(&self) -> (r: u16)
        requires
            self.codes().len() > 0,
        ensures
            r == self.codes()[0],
    {
        let v = self.to_vec();
        v[0]
    }

    pub fn from_u16(value: u16) -> (r: Self)
        ensures
            r.codes() == seq![value],
            Self::named_of(value) is Some ==> Some(r) == Self::named_of(value),
            Self::named_of(value) is None ==> r is UnknownValue,
    {
        let v: Vec<u16> = vec![value];
        proof {
            assert(v@ =~= seq![value]);
        }
        Self::from_vec(v.as_slice())
    }

    /// Every named value with its code, and the value itself at the end when it is unknown.
    pub fn all(&self) -> (r: Vec<(u16, Self)>)
        ensures
            r@.len() == (if self is UnknownValue { 6nat } else { 5nat }),
            forall|i: int| 0 <= i < 5 ==> r@[i].0 == Self::listed()[i] && Self::named_of(r@[i].0) == Some(r@[i].1),
            self is UnknownValue ==> r@[5].0 == 0 && r@[5].1 is UnknownValue && r@[5].1.codes() == self.codes(),
    {
        let mut r: Vec<(u16, Self)> = Vec::new();
        r.push((1, FocalPlaneResolutionUnit::NoUnit));
        r.push((2, FocalPlaneResolutionUnit::inches));
        r.push((3, FocalPlaneResolutionUnit::cm));
        r.push((4, FocalPlaneResolutionUnit::mm));
        r.push((5, FocalPlaneResolutionUnit::um));
        if let FocalPlaneResolutionUnit::UnknownValue(v) = self {
            r.push((0, FocalPlaneResolutionUnit::UnknownValue(copy_u16s(v.as_slice()))));
        }
        r
    }

    /// Decoding the code of a named value gives that value back.
    pub proof fn lemma_named_round_trip(x: Self)
        requires
            !(x is UnknownValue),
        ensures
            x.codes().len() == 1,
            Self::named_of(x.codes()[0]) == Some(x),
            Self::decodes(x.codes(), x),
    {
    }
}

/// How white balance was set.
#[allow(non_camel_case_types)]
#[derive(Clone, Debug, PartialEq, Eq)]
pub enum WhiteBalance {
    Auto,
    Manual,
    UnknownValue(Vec<u16>),
}

impl WhiteBalance {
    /// The named value a single code stands for, if any.
    pub open spec fn named_of(c: u16) -> Option<WhiteBalance> {
        if c == 0 {
            Some(WhiteBalance::Auto)
        } else if c == 1 {
            Some(WhiteBalance::Manual)
        } else {
            None
        }
    }

    /// `r` is what decoding the raw codes `v` gives: the named value for one known code, an
    /// unknown value holding `v` otherwise.
    pub open spec fn decodes(v: Seq<u16>, r: Self) -> bool {
        &&& r.codes() == v
        &&& v.len() == 1 && Self::named_of(v[0]) is Some ==> Some(r) == Self::named_of(v[0])
        &&& !(v.len() == 1 && Self::named_of(v[0]) is Some) ==> r is UnknownValue
    }

    /// The raw codes of the value.
    pub open spec fn codes(&self) -> Seq<u16> {
        match self {
            WhiteBalance::Auto => seq![0u16],
            WhiteBalance::Manual => seq![1u16],
            WhiteBalance::UnknownValue(v) => v@,
        }
    }

    /// The codes of the named values, in listing order.
    pub open spec fn listed() -> Seq<u16> {
        seq![0u16, 1u16]
    }

    /// Display name of the value.
    pub open spec fn text(&self) -> Seq<char> {
        match self {
            WhiteBalance::Auto => "Auto"@,
            WhiteBalance::Manual => "Manual"@,
            WhiteBalance::UnknownValue(v) => "UnknownValue"@ + list_dec(v@.map_values(|x: u16| x as int)),
        }
    }

    pub fn to_vec(&self) -> (r: Vec<u16>)
        ensures
            r@ == self.codes(),
    {
        match self {
            WhiteBalance::Auto => vec![0],
            WhiteBalance::Manual => vec![1],
            WhiteBalance::UnknownValue(v) => copy_u16s(v.as_slice()),
        }
    }

    /// Decodes raw codes; anything but one known code is kept as it is.
    pub fn from_vec(v: &[u16]) -> (r: Self)
        ensures
            r.codes() == v@,
            v@.len() == 1 && Self::named_of(v@[0]) is Some ==> Some(r) == Self::named_of(v@[0]),
            !(v@.len() == 1 && Self::named_of(v@[0]) is Some) ==> r is UnknownValue,
    {
        if v.len() != 1 {
            return WhiteBalance::UnknownValue(copy_u16s(v));
        }
        match v[0] {
            0 => WhiteBalance::Auto,
            1 => WhiteBalance::Manual,
            _ => WhiteBalance::UnknownValue(copy_u16s(v)),
        }
    }

    /// Decodes codes stored one per byte.
    pub fn from_u8_vec(v: &[u8]) -> (r: Self)
        ensures
            r.codes() == v@.map_values(|b: u8| b as u16),
            v@.len() == 1 && Self::named_of(v@[0] as u16) is Some ==> Some(r) == Self::named_of(v@[0] as u16),
            !(v@.len() == 1 && Self::named_of(v@[0] as u16) is Some) ==> r is UnknownValue,
    {
        let w = widen_bytes(v);
        Self::from_vec(w.as_slice())
    }

    /// What `from_vec` gives for the codes `c`, as far as it is fixed.
    pub fn to_string(&self) -> (r: String)
        ensures
            r@ == self.text(),
    {
        match self {
            WhiteBalance::Auto => String::from_str("Auto"),
            WhiteBalance::Manual => String::from_str("Manual"),
            WhiteBalance::UnknownValue(v) => {
                let mut s = String::from_str("UnknownValue");
                let w = widen_u16s(v.as_slice());
                let t = list_text(w.as_slice());
                s.append(t.as_str());
                s
            }
        }
    }

    /// The value used when nothing is known yet.
    pub fn unknown() -> (r: Self)
        ensures
            r is UnknownValue,
            r.codes() == seq![255u16],
    {
        WhiteBalance::UnknownValue(vec![255])
    }

    /// The first raw code.
    pub fn to_u16(&self) -> (r: u16)
        requires
            self.codes().len() > 0,
        ensures
            r == self.codes()[0],
    {
        let v = self.to_vec();
        v[0]
    }

    pub fn from_u16(value: u16) -> (r: Self)
        ensures
            r.codes() == seq![value],
            Self::named_of(value) is Some ==> Some(r) == Self::named_of(value),
            Self::named_of(value) is None ==> r is UnknownValue,
    {
        let v: Vec<u16> = vec![value];
        proof {
            assert(v@ =~= seq![value]);
        }
        Self::from_vec(v.as_slice())
    }

    /// Every named value with its code, and the value itself at the end when it is unknown.
    pub fn all(&self) -> (r: Vec<(u16, Self)>)
        ensures
            r@.len() == (if self is UnknownValue { 3nat } else { 2nat }),
            forall|i: int| 0 <= i < 2 ==> r@[i].0 == Self::listed()[i] && Self::named_of(r@[i].0) == Some(r@[i].1),
            self is UnknownValue ==> r@[2].0 == 255 && r@[2].1 is UnknownValue && r@[2].1.codes() == self.codes(),
    {
        let mut r: Vec<(u16, Self)> = Vec::new();
        r.push((0, WhiteBalance::Auto));
        r.push((1, WhiteBalance::Manual));
        if let WhiteBalance::UnknownValue(v) = self {
            r.push((255, WhiteBalance::UnknownValue(copy_u16s(v.as_slice()))));
        }
        r
    }

    /// Decoding the code of a named value gives that value back.
    pub proof fn lemma_named_round_trip(x: Self)
        requires
            !(x is UnknownValue),
        ensures
            x.codes().len() == 1,
            Self::named_of(x.codes()[0]) == Some(x),
            Self::decodes(x.codes(), x),
    {
    }
}

/// Kind of scene that was shot.
#[allow(non_camel_case_types)]
#[derive(Clone, Debug, PartialEq, Eq)]
pub enum SceneCaptureType {
    Standard,
    Landscape,
    Portrait,
    Night,
    Other,
    UnknownValue(Vec<u16>),
}

impl SceneCaptureType {
    /// The named value a single code stands for, if any.
    pub open spec fn named_of(c: u16) -> Option<SceneCaptureType> {
        if c == 0 {
            Some(SceneCaptureType::Standard)
        } else if c == 1 {
            Some(SceneCaptureType::Landscape)
        } else if c == 2 {
            Some(SceneCaptureType::Portrait)
        } else if c == 3 {
            Some(SceneCaptureType::Night)
        } else if c == 4 {
            Some(SceneCaptureType::Other)
        } else {
            None
        }
    }

    /// `r` is what decoding the raw codes `v` gives: the named value for one known code, an
    /// unknown value holding `v` otherwise.
    pub open spec fn decodes(v: Seq<u16>, r: Self) -> bool {
        &&& r.codes() == v
        &&& v.len() == 1 && Self::named_of(v[0]) is Some ==> Some(r) == Self::named_of(v[0])
        &&& !(v.len() == 1 && Self::named_of(v[0]) is Some) ==> r is UnknownValue
    }

    /// The raw codes of the value.
    pub open spec fn codes(&self) -> Seq<u16> {
        match self {
            SceneCaptureType::Standard => seq![0u16],
            SceneCaptureType::Landscape => seq![1u16],
            SceneCaptureType::Portrait => seq![2u16],
            SceneCaptureType::Night => seq![3u16],
            SceneCaptureType::Other => seq![4u16],
            SceneCaptureType::UnknownValue(v) => v@,
        }
    }

    /// The codes of the named values, in listing order.
    pub open spec fn listed() -> Seq<u16> {
        seq![0u16, 1u16, 2u16, 3u16, 4u16]
    }

    /// Display name of the value.
    pub open spec fn text(&self) -> Seq<char> {
        match self {
            SceneCaptureType::Standard => "Standard"@,
            SceneCaptureType::Landscape => "Landscape"@,
            SceneCaptureType::Portrait => "Portrait"@,
            SceneCaptureType::Night => "Night"@,
            SceneCaptureType::Other => "Other"@,
            SceneCaptureType::UnknownValue(v) => "UnknownValue"@ + list_dec(v@.map_values(|x: u16| x as int)),
        }
    }

    pub fn to_vec(&self) -> (r: Vec<u16>)
        ensures
            r@ == self.codes(),
    {
        match self {
            SceneCaptureType::Standard => vec![0],
            SceneCaptureType::Landscape => vec![1],
            SceneCaptureType::Portrait => vec![2],
            SceneCaptureType::Night => vec![3],
            SceneCaptureType::Other => vec![4],
            SceneCaptureType::UnknownValue(v) => copy_u16s(v.as_slice()),
        }
    }

    /// Decodes raw codes; anything but one known code is kept as it is.
    pub fn from_vec(v: &[u16]) -> (r: Self)
        ensures
            r.codes() == v@,
            v@.len() == 1 && Self::named_of(v@[0]) is Some ==> Some(r) == Self::named_of(v@[0]),
            !(v@.len() == 1 && Self::named_of(v@[0]) is Some) ==> r is UnknownValue,
    {
        if v.len() != 1 {
            return SceneCaptureType::UnknownValue(copy_u16s(v));
        }
        match v[0] {
            0 => SceneCaptureType::Standard,
            1 => SceneCaptureType::Landscape,
            2 => SceneCaptureType::Portrait,
            3 => SceneCaptureType::Night,
            4 => SceneCaptureType::Other,
            _ => SceneCaptureType::UnknownValue(copy_u16s(v)),
        }
    }

    /// Decodes codes stored one per byte.
    pub fn from_u8_vec(v: &[u8]) -> (r: Self)
        ensures
            r.codes() == v@.map_values(|b: u8| b as u16),
            v@.len() == 1 && Self::named_of(v@[0] as u16) is Some ==> Some(r) == Self::named_of(v@[0] as u16),
            !(v@.len() == 1 && Self::named_of(v@[0] as u16) is Some) ==> r is UnknownValue,
    {
        let w = widen_bytes(v);
        Self::from_vec(w.as_slice())
    }

    /// What `from_vec` gives for the codes `c`, as far as it is fixed.
    pub fn to_string(&self) -> (r: String)
        ensures
            r@ == self.text(),
    {
        match self {
            SceneCaptureType::Standard => String::from_str("Standard"),
            SceneCaptureType::Landscape => String::from_str("Landscape"),
            SceneCaptureType::Portrait => String::from_str("Portrait"),
            SceneCaptureType::Night => String::from_str("Night"),
            SceneCaptureType::Other => String::from_str("Other"),
            SceneCaptureType::UnknownValue(v) => {
                let mut s = String::from_str("UnknownValue");
                let w = widen_u16s(v.as_slice());
                let t = list_text(w.as_slice());
                s.append(t.as_str());
                s
            }
        }
    }

    /// The value used when nothing is known yet.
    pub fn unknown() -> (r: Self)
        ensures
            r is UnknownValue,
            r.codes() == seq![255u16],
    {
        SceneCaptureType::UnknownValue(vec![255])
    }

    /// The first raw code.
    pub fn to_u16(&self) -> (r: u16)
        requires
            self.codes().len() > 0,
        ensures
            r == self.codes()[0],
    {
        let v = self.to_vec();
        v[0]
    }

    pub fn from_u16(value: u16) -> (r: Self)
        ensures
            r.codes() == seq![value],
            Self::named_of(value) is Some ==> Some(r) == Self::named_of(value),
            Self::named_of(value) is None ==> r is UnknownValue,
    {
        let v: Vec<u16> = vec![value];
        proof {
            assert(v@ =~= seq![value]);
        }
        Self::from_vec(v.as_slice())
    }

    /// Every named value with its code, and the value itself at the end when it is unknown.
    pub fn all(&self) -> (r: Vec<(u16, Self)>)
        ensures
            r@.len() == (if self is UnknownValue { 6nat } else { 5nat }),
            forall|i: int| 0 <= i < 5 ==> r@[i].0 == Self::listed()[i] && Self::named_of(r@[i].0) == Some(r@[i].1),
            self is UnknownValue ==> r@[5].0 == 255 && r@[5].1 is UnknownValue && r@[5].1.codes() == self.codes(),
    {
        let mut r: Vec<(u16, Self)> = Vec::new();
        r.push((0, SceneCaptureType::Standard));
        r.push((1, SceneCaptureType::Landscape));
        r.push((2, SceneCaptureType::Portrait));
        r.push((3, SceneCaptureType::Night));
        r.push((4, SceneCaptureType::Other));
        if let SceneCaptureType::UnknownValue(v) = self {
            r.push((255, SceneCaptureType::UnknownValue(copy_u16s(v.as_slice()))));
        }
        r
    }

    /// Decoding the code of a named value gives that value back.
    pub proof fn lemma_named_round_trip(x: Self)
        requires
            !(x is UnknownValue),
        ensures
            x.codes().len() == 1,
            Self::named_of(x.codes()[0]) == Some(x),
            Self::decodes(x.codes(), x),
    {
    }
}

/// Degree of overall gain adjustment.
#[allow(non_camel_case_types)]
#[derive(Clone, Debug, PartialEq, Eq)]
pub enum GainControl {
    NoGain,
    LowGainUp,
    HighGainUp,
    LowGainDown,
    HighGainDown,
    UnknownValue(Vec<u16>),
}

impl GainControl {
    /// The named value a single code stands for, if any.
    pub open spec fn named_of(c: u16) -> Option<GainControl> {
        if c == 0 {
            Some(GainControl::NoGain)
        } else if c == 1 {
            Some(GainControl::LowGainUp)
        } else if c == 2 {
            Some(GainControl::HighGainUp)
        } else if c == 3 {
            Some(GainControl::LowGainDown)
        } else if c == 4 {
            Some(GainControl::HighGainDown)
        } else {
            None
        }
    }

    /// `r` is what decoding the raw codes `v` gives: the named value for one known code, an
    /// unknown value holding `v` otherwise.
    pub open spec fn decodes(v: Seq<u16>, r: Self) -> bool {
        &&& r.codes() == v
        &&& v.len() == 1 && Self::named_of(v[0]) is Some ==> Some(r) == Self::named_of(v[0])
        &&& !(v.len() == 1 && Self::named_of(v[0]) is Some) ==> r is UnknownValue
    }

    /// The raw codes of the value.
    pub open spec fn codes(&self) -> Seq<u16> {
        match self {
            GainControl::NoGain => seq![0u16],
            GainControl::LowGainUp => seq![1u16],
            GainControl::HighGainUp => seq![2u16],
            GainControl::LowGainDown => seq![3u16],
            GainControl::HighGainDown => seq![4u16],
            GainControl::UnknownValue(v) => v@,
        }
    }

    /// The codes of the named values, in listing order.
    pub open spec fn listed() -> Seq<u16> {
        seq![0u16, 1u16, 2u16, 3u16, 4u16]
    }

    /// Display name of the value.
    pub open spec fn text(&self) -> Seq<char> {
        match self {
            GainControl::NoGain => "NoGain"@,
            GainControl::LowGainUp => "LowGainUp"@,
            GainControl::HighGainUp => "HighGainUp"@,
            GainControl::LowGainDown => "LowGainDown"@,
            GainControl::HighGainDown => "HighGainDown"@,
            GainControl::UnknownValue(v) => "UnknownValue"@ + list_dec(v@.map_values(|x: u16| x as int)),
        }
    }

    pub fn to_vec(&self) -> (r: Vec<u16>)
        ensures
            r@ == self.codes(),
    {
        match self {
            GainControl::NoGain => vec![0],
            GainControl::LowGainUp => vec![1],
            GainControl::HighGainUp => vec![2],
            GainControl::LowGainDown => vec![3],
            GainControl::HighGainDown => vec![4],
            GainControl::UnknownValue(v) => copy_u16s(v.as_slice()),
        }
    }

    /// Decodes raw codes; anything but one known code is kept as it is.
    pub fn from_vec(v: &[u16]) -> (r: Self)
        ensures
            r.codes() == v@,
            v@.len() == 1 && Self::named_of(v@[0]) is Some ==> Some(r) == Self::named_of(v@[0]),
            !(v@.len() == 1 && Self::named_of(v@[0]) is Some) ==> r is UnknownValue,
    {
        if v.len() != 1 {
            return GainControl::UnknownValue(copy_u16s(v));
        }
        match v[0] {
            0 => GainControl::NoGain,
            1 => GainControl::LowGainUp,
            2 => GainControl::HighGainUp,
            3 => GainControl::LowGainDown,
            4 => GainControl::HighGainDown,
            _ => GainControl::UnknownValue(copy_u16s(v)),
        }
    }

    /// Decodes codes stored one per byte.
    pub fn from_u8_vec(v: &[u8]) -> (r: Self)
        ensures
            r.codes() == v@.map_values(|b: u8| b as u16),
            v@.len() == 1 && Self::named_of(v@[0] as u16) is Some ==> Some(r) == Self::named_of(v@[0] as u16),
            !(v@.len() == 1 && Self::named_of(v@[0] as u16) is Some) ==> r is UnknownValue,
    {
        let w = widen_bytes(v);
        Self::from_vec(w.as_slice())
    }

    /// What `from_vec` gives for the codes `c`, as far as it is fixed.
    pub fn to_string(&self) -> (r: String)
        ensures
            r@ == self.text(),
    {
        match self {
            GainControl::NoGain => String::from_str("NoGain"),
            GainControl::LowGainUp => String::from_str("LowGainUp"),
            GainControl::HighGainUp => String::from_str("HighGainUp"),
            GainControl::LowGainDown => String::from_str("LowGainDown"),
            GainControl::HighGainDown => String::from_str("HighGainDown"),
            GainControl::UnknownValue(v) => {
                let mut s = String::from_str("UnknownValue");
                let w = widen_u16s(v.as_slice());
                let t = list_text(w.as_slice());
                s.append(t.as_str());
                s
            }
        }
    }

    /// The value used when nothing is known yet.
    pub fn unknown() -> (r: Self)
        ensures
            r is UnknownValue,
            r.codes() == seq![255u16],
    {
        GainControl::UnknownValue(vec![255])
    }

    /// The first raw code.
    pub fn to_u16(&self) -> (r: u16)
        requires
            self.codes().len() > 0,
        ensures
            r == self.codes()[0],
    {
        let v = self.to_vec();
        v[0]
    }

    pub fn from_u16(value: u16) -> (r: Self)
        ensures
            r.codes() == seq![value],
            Self::named_of(value) is Some ==> Some(r) == Self::named_of(value),
            Self::named_of(value) is None ==> r is UnknownValue,
    {
        let v: Vec<u16> = vec![value];
        proof {
            assert(v@ =~= seq![value]);
        }
        Self::from_vec(v.as_slice())
    }

    /// Every named value with its code, and the value itself at the end when it is unknown.
    pub fn all(&self) -> (r: Vec<(u16, Self)>)
        ensures
            r@.len() == (if self is UnknownValue { 6nat } else { 5nat }),
            forall|i: int| 0 <= i < 5 ==> r@[i].0 == Self::listed()[i] && Self::named_of(r@[i].0) == Some(r@[i].1),
            self is UnknownValue ==> r@[5].0 == 255 && r@[5].1 is UnknownValue && r@[5].1.codes() == self.codes(),
    {
        let mut r: Vec<(u16, Self)> = Vec::new();
        r.push((0, GainControl::NoGain));
        r.push((1, GainControl::LowGainUp));
        r.push((2, GainControl::HighGainUp));
        r.push((3, GainControl::LowGainDown));
        r.push((4, GainControl::HighGainDown));
        if let GainControl::UnknownValue(v) = self {
            r.push((255, GainControl::UnknownValue(copy_u16s(v.as_slice()))));
        }
        r
    }

    /// Decoding the code of a named value gives that value back.
    pub proof fn lemma_named_round_trip(x: Self)
        requires
            !(x is UnknownValue),
        ensures
            x.codes().len() == 1,
            Self::named_of(x.codes()[0]) == Some(x),
            Self::decodes(x.codes(), x),
    {
    }
}

/// Contrast processing applied.
#[allow(non_camel_case_types)]
#[derive(Clone, Debug, PartialEq, Eq)]
pub enum Contrast {
    Normal,
    Low,
    High,
    UnknownValue(Vec<u16>),
}

impl Contrast {
    /// The named value a single code stands for, if any.
    pub open spec fn named_of(c: u16) -> Option<Contrast> {
        if c == 0 {
            Some(Contrast::Normal)
        } else if c == 1 {
            Some(Contrast::Low)
        } else if c == 2 {
            Some(Contrast::High)
        } else {
            None
        }
    }

    /// `r` is what decoding the raw codes `v` gives: the named value for one known code, an
    /// unknown value holding `v` otherwise.
    pub open spec fn decodes(v: Seq<u16>, r: Self) -> bool {
        &&& r.codes() == v
        &&& v.len() == 1 && Self::named_of(v[0]) is Some ==> Some(r) == Self::named_of(v[0])
        &&& !(v.len() == 1 && Self::named_of(v[0]) is Some) ==> r is UnknownValue
    }

    /// The raw codes of the value.
    pub open spec fn codes(&self) -> Seq<u16> {
        match self {
            Contrast::Normal => seq![0u16],
            Contrast::Low => seq![1u16],
            Contrast::High => seq![2u16],
            Contrast::UnknownValue(v) => v@,
        }
    }

    /// The codes of the named values, in listing order.
    pub open spec fn listed() -> Seq<u16> {
        seq![0u16, 1u16, 2u16]
    }

    /// Display name of the value.
    pub open spec fn text(&self) -> Seq<char> {
        match self {
            Contrast::Normal => "Normal"@,
            Contrast::Low => "Low"@,
            Contrast::High => "High"@,
            Contrast::UnknownValue(v) => "UnknownValue"@ + list_dec(v@.map_values(|x: u16| x as int)),
        }
    }

    pub fn to_vec(&self) -> (r: Vec<u16>)
        ensures
            r@ == self.codes(),
    {
        match self {
            Contrast::Normal => vec![0],
            Contrast::Low => vec![1],
            Contrast::High => vec![2],
            Contrast::UnknownValue(v) => copy_u16s(v.as_slice()),
        }
    }

    /// Decodes raw codes; anything but one known code is kept as it is.
    pub fn from_vec(v: &[u16]) -> (r: Self)
        ensures
            r.codes() == v@,
            v@.len() == 1 && Self::named_of(v@[0]) is Some ==> Some(r) == Self::named_of(v@[0]),
            !(v@.len() == 1 && Self::named_of(v@[0]) is Some) ==> r is UnknownValue,
    {
        if v.len() != 1 {
            return Contrast::UnknownValue(copy_u16s(v));
        }
        match v[0] {
            0 => Contrast::Normal,
            1 => Contrast::Low,
            2 => Contrast::High,
            _ => Contrast::UnknownValue(copy_u16s(v)),
        }
    }

    /// Decodes codes stored one per byte.
    pub fn from_u8_vec(v: &[u8]) -> (r: Self)
        ensures
            r.codes() == v@.map_values(|b: u8| b as u16),
            v@.len() == 1 && Self::named_of(v@[0] as u16) is Some ==> Some(r) == Self::named_of(v@[0] as u16),
            !(v@.len() == 1 && Self::named_of(v@[0] as u16) is Some) ==> r is UnknownValue,
    {
        let w = widen_bytes(v);
        Self::from_vec(w.as_slice())
    }

    /// What `from_vec` gives for the codes `c`, as far as it is fixed.
    pub fn to_string(&self) -> (r: String)
        ensures
            r@ == self.text(),
    {
        match self {
            Contrast::Normal => String::from_str("Normal"),
            Contrast::Low => String::from_str("Low"),
            Contrast::High => String::from_str("High"),
            Contrast::UnknownValue(v) => {
                let mut s = String::from_str("UnknownValue");
                let w = widen_u16s(v.as_slice());
                let t = list_text(w.as_slice());
                s.append(t.as_str());
                s
            }
        }
    }

    /// The value used when nothing is known yet.
    pub fn unknown() -> (r: Self)
        ensures
            r is UnknownValue,
            r.codes() == seq![255u16],
    {
        Contrast::UnknownValue(vec![255])
    }

    /// The first raw code.
    pub fn to_u16(&self) -> (r: u16)
        requires
            self.codes().len() > 0,
        ensures
            r == self.codes()[0],
    {
        let v = self.to_vec();
        v[0]
    }

    pub fn from_u16(value: u16) -> (r: Self)
        ensures
            r.codes() == seq![value],
            Self::named_of(value) is Some ==> Some(r) == Self::named_of(value),
            Self::named_of(value) is None ==> r is UnknownValue,
    {
        let v: Vec<u16> = vec![value];
        proof {
            assert(v@ =~= seq![value]);
        }
        Self::from_vec(v.as_slice())
    }

    /// Every named value with its code, and the value itself at the end when it is unknown.
    pub fn all(&self) -> (r: Vec<(u16, Self)>)
        ensures
            r@.len() == (if self is UnknownValue { 4nat } else { 3nat }),
            forall|i: int| 0 <= i < 3 ==> r@[i].0 == Self::listed()[i] && Self::named_of(r@[i].0) == Some(r@[i].1),
            self is UnknownValue ==> r@[3].0 == 255 && r@[3].1 is UnknownValue && r@[3].1.codes() == self.codes(),
    {
        let mut r: Vec<(u16, Self)> = Vec::new();
        r.push((0, Contrast::Normal));
        r.push((1, Contrast::Low));
        r.push((2, Contrast::High));
        if let Contrast::UnknownValue(v) = self {
            r.push((255, Contrast::UnknownValue(copy_u16s(v.as_slice()))));
        }
        r
    }

    /// Decoding the code of a named value gives that value back.
    pub proof fn lemma_named_round_trip(x: Self)
        requires
            !(x is UnknownValue),
        ensures
            x.codes().len() == 1,
            Self::named_of(x.codes()[0]) == Some(x),
            Self::decodes(x.codes(), x),
    {
    }
}

/// Saturation processing applied.
#[allow(non_camel_case_types)]
#[derive(Clone, Debug, PartialEq, Eq)]
pub enum Saturation {
    Normal,
    Low,
    High,
    UnknownValue(Vec<u16>),
}

impl Saturation {
    /// The named value a single code stands for, if any.
    pub open spec fn named_of(c: u16) -> Option<Saturation> {
        if c == 0 {
            Some(Saturation::Normal)
        } else if c == 1 {
            Some(Saturation::Low)
        } else if c == 2 {
            Some(Saturation::High)
        } else {
            None
        }
    }

    /// `r` is what decoding the raw codes `v` gives: the named value for one known code, an
    /// unknown value holding `v` otherwise.
    pub open spec fn decodes(v: Seq<u16>, r: Self) -> bool {
        &&& r.codes() == v
        &&& v.len() == 1 && Self::named_of(v[0]) is Some ==> Some(r) == Self::named_of(v[0])
        &&& !(v.len() == 1 && Self::named_of(v[0]) is Some) ==> r is UnknownValue
    }

    /// The raw codes of the value.
    pub open spec fn codes(&self) -> Seq<u16> {
        match self {
            Saturation::Normal => seq![0u16],
            Saturation::Low => seq![1u16],
            Saturation::High => seq![2u16],
            Saturation::UnknownValue(v) => v@,
        }
    }

    /// The codes of the named values, in listing order.
    pub open spec fn listed() -> Seq<u16> {
        seq![0u16, 1u16, 2u16]
    }

    /// Display name of the value.
    pub open spec fn text(&self) -> Seq<char> {
        match self {
            Saturation::Normal => "Normal"@,
            Saturation::Low => "Low"@,
            Saturation::High => "High"@,
            Saturation::UnknownValue(v) => "UnknownValue"@ + list_dec(v@.map_values(|x: u16| x as int)),
        }
    }

    pub fn to_vec(&self) -> (r: Vec<u16>)
        ensures
            r@ == self.codes(),
    {
        match self {
            Saturation::Normal => vec![0],
            Saturation::Low => vec![1],
            Saturation::High => vec![2],
            Saturation::UnknownValue(v) => copy_u16s(v.as_slice()),
        }
    }

    /// Decodes raw codes; anything but one known code is kept as it is.
    pub fn from_vec(v: &[u16]) -> (r: Self)
        ensures
            r.codes() == v@,
            v@.len() == 1 && Self::named_of(v@[0]) is Some ==> Some(r) == Self::named_of(v@[0]),
            !(v@.len() == 1 && Self::named_of(v@[0]) is Some) ==> r is UnknownValue,
    {
        if v.len() != 1 {
            return Saturation::UnknownValue(copy_u16s(v));
        }
        match v[0] {
            0 => Saturation::Normal,
            1 => Saturation::Low,
            2 => Saturation::High,
            _ => Saturation::UnknownValue(copy_u16s(v)),
        }
    }

    /// Decodes codes stored one per byte.
    pub fn from_u8_vec(v: &[u8]) -> (r: Self)
        ensures
            r.codes() == v@.map_values(|b: u8| b as u16),
            v@.len() == 1 && Self::named_of(v@[0] as u16) is Some ==> Some(r) == Self::named_of(v@[0] as u16),
            !(v@.len() == 1 && Self::named_of(v@[0] as u16) is Some) ==> r is UnknownValue,
    {
        let w = widen_bytes(v);
        Self::from_vec(w.as_slice())
    }

    /// What `from_vec` gives for the codes `c`, as far as it is fixed.
    pub fn to_string(&self) -> (r: String)
        ensures
            r@ == self.text(),
    {
        match self {
            Saturation::Normal => String::from_str("Normal"),
            Saturation::Low => String::from_str("Low"),
            Saturation::High => String::from_str("High"),
            Saturation::UnknownValue(v) => {
                let mut s = String::from_str("UnknownValue");
                let w = widen_u16s(v.as_slice());
                let t = list_text(w.as_slice());
                s.append(t.as_str());
                s
            }
        }
    }

    /// The value used when nothing is known yet.
    pub fn unknown() -> (r: Self)
        ensures
            r is UnknownValue,
            r.codes() == seq![255u16],
    {
        Saturation::UnknownValue(vec![255])
    }

    /// The first raw code.
    pub fn to_u16(&self) -> (r: u16)
        requires
            self.codes().len() > 0,
        ensures
            r == self.codes()[0],
    {
        let v = self.to_vec();
        v[0]
    }

    pub fn from_u16(value: u16) -> (r: Self)
        ensures
            r.codes() == seq![value],
            Self::named_of(value) is Some ==> Some(r) == Self::named_of(value),
            Self::named_of(value) is None ==> r is UnknownValue,
    {
        let v: Vec<u16> = vec![value];
        proof {
            assert(v@ =~= seq![value]);
        }
        Self::from_vec(v.as_slice())
    }

    /// Every named value with its code, and the value itself at the end when it is unknown.
    pub fn all(&self) -> (r: Vec<(u16, Self)>)
        ensures
            r@.len() == (if self is UnknownValue { 4nat } else { 3nat }),
            forall|i: int| 0 <= i < 3 ==> r@[i].0 == Self::listed()[i] && Self::named_of(r@[i].0) == Some(r@[i].1),
            self is UnknownValue ==> r@[3].0 == 255 && r@[3].1 is UnknownValue && r@[3].1.codes() == self.codes(),
    {
        let mut r: Vec<(u16, Self)> = Vec::new();
        r.push((0, Saturation::Normal));
        r.push((1, Saturation::Low));
        r.push((2, Saturation::High));
        if let Saturation::UnknownValue(v) = self {
            r.push((255, Saturation::UnknownValue(copy_u16s(v.as_slice()))));
        }
        r
    }

    /// Decoding the code of a named value gives that value back.
    pub proof fn lemma_named_round_trip(x: Self)
        requires
            !(x is UnknownValue),
        ensures
            x.codes().len() == 1,
            Self::named_of(x.codes()[0]) == Some(x),
            Self::decodes(x.codes(), x),
    {
    }
}

/// Sharpness processing applied.
#[allow(non_camel_case_types)]
#[derive(Clone, Debug, PartialEq, Eq)]
pub enum Sharpness {
    Normal,
    Soft,
    Hard,
    UnknownValue(Vec<u16>),
}

impl Sharpness {
    /// The named value a single code stands for, if any.
    pub open spec fn named_of(c: u16) -> Option<Sharpness> {
        if c == 0 {
            Some(Sharpness::Normal)
        } else if c == 1 {
            Some(Sharpness::Soft)
        } else if c == 2 {
            Some(Sharpness::Hard)
        } else {
            None
        }
    }

    /// `r` is what decoding the raw codes `v` gives: the named value for one known code, an
    /// unknown value holding `v` otherwise.
    pub open spec fn decodes(v: Seq<u16>, r: Self) -> bool {
        &&& r.codes() == v
        &&& v.len() == 1 && Self::named_of(v[0]) is Some ==> Some(r) == Self::named_of(v[0])
        &&& !(v.len() == 1 && Self::named_of(v[0]) is Some) ==> r is UnknownValue
    }

    /// The raw codes of the value.
    pub open spec fn codes(&self) -> Seq<u16> {
        match self {
            Sharpness::Normal => seq![0u16],
            Sharpness::Soft => seq![1u16],
            Sharpness::Hard => seq![2u16],
            Sharpness::UnknownValue(v) => v@,
        }
    }

    /// The codes of the named values, in listing order.
    pub open spec fn listed() -> Seq<u16> {
        seq![0u16, 1u16, 2u16]
    }

    /// Display name of the value.
    pub open spec fn text(&self) -> Seq<char> {
        match self {
            Sharpness::Normal => "Normal"@,
            Sharpness::Soft => "Soft"@,
            Sharpness::Hard => "Hard"@,
            Sharpness::UnknownValue(v) => "UnknownValue"@ + list_dec(v@.map_values(|x: u16| x as int)),
        }
    }

    pub fn to_vec(&self) -> (r: Vec<u16>)
        ensures
            r@ == self.codes(),
    {
        match self {
            Sharpness::Normal => vec![0],
            Sharpness::Soft => vec![1],
            Sharpness::Hard => vec![2],
            Sharpness::UnknownValue(v) => copy_u16s(v.as_slice()),
        }
    }

    /// Decodes raw codes; anything but one known code is kept as it is.
    pub fn from_vec(v: &[u16]) -> (r: Self)
        ensures
            r.codes() == v@,
            v@.len() == 1 && Self::named_of(v@[0]) is Some ==> Some(r) == Self::named_of(v@[0]),
            !(v@.len() == 1 && Self::named_of(v@[0]) is Some) ==> r is UnknownValue,
    {
        if v.len() != 1 {
            return Sharpness::UnknownValue(copy_u16s(v));
        }
        match v[0] {
            0 => Sharpness::Normal,
            1 => Sharpness::Soft,
            2 => Sharpness::Hard,
            _ => Sharpness::UnknownValue(copy_u16s(v)),
        }
    }

    /// Decodes codes stored one per byte.
    pub fn from_u8_vec(v: &[u8]) -> (r: Self)
        ensures
            r.codes() == v@.map_values(|b: u8| b as u16),
            v@.len() == 1 && Self::named_of(v@[0] as u16) is Some ==> Some(r) == Self::named_of(v@[0] as u16),
            !(v@.len() == 1 && Self::named_of(v@[0] as u16) is Some) ==> r is UnknownValue,
    {
        let w = widen_bytes(v);
        Self::from_vec(w.as_slice())
    }

    /// What `from_vec` gives for the codes `c`, as far as it is fixed.
    pub fn to_string(&self) -> (r: String)
        ensures
            r@ == self.text(),
    {
        match self {
            Sharpness::Normal => String::from_str("Normal"),
            Sharpness::Soft => String::from_str("Soft"),
            Sharpness::Hard => String::from_str("Hard"),
            Sharpness::UnknownValue(v) => {
                let mut s = String::from_str("UnknownValue");
                let w = widen_u16s(v.as_slice());
                let t = list_text(w.as_slice());
                s.append(t.as_str());
                s
            }
        }
    }

    /// The value used when nothing is known yet.
    pub fn unknown() -> (r: Self)
        ensures
            r is UnknownValue,
            r.codes() == seq![255u16],
    {
        Sharpness::UnknownValue(vec![255])
    }

    /// The first raw code.
    pub fn to_u16(&self) -> (r: u16)
        requires
            self.codes().len() > 0,
        ensures
            r == self.codes()[0],
    {
        let v = self.to_vec();
        v[0]
    }

    pub fn from_u16(value: u16) -> (r: Self)
        ensures
            r.codes() == seq![value],
            Self::named_of(value) is Some ==> Some(r) == Self::named_of(value),
            Self::named_of(value) is None ==> r is UnknownValue,
    {
        let v: Vec<u16> = vec![value];
        proof {
            assert(v@ =~= seq![value]);
        }
        Self::from_vec(v.as_slice())
    }

    /// Every named value with its code, and the value itself at the end when it is unknown.
    pub fn all(&self) -> (r: Vec<(u16, Self)>)
        ensures
            r@.len() == (if self is UnknownValue { 4nat } else { 3nat }),
            forall|i: int| 0 <= i < 3 ==> r@[i].0 == Self::listed()[i] && Self::named_of(r@[i].0) == Some(r@[i].1),
            self is UnknownValue ==> r@[3].0 == 255 && r@[3].1 is UnknownValue && r@[3].1.codes() == self.codes(),
    {
        let mut r: Vec<(u16, Self)> = Vec::new();
        r.push((0, Sharpness::Normal));
        r.push((1, Sharpness::Soft));
        r.push((2, Sharpness::Hard));
        if let Sharpness::UnknownValue(v) = self {
            r.push((255, Sharpness::UnknownValue(copy_u16s(v.as_slice()))));
        }
        r
    }

    /// Decoding the code of a named value gives that value back.
    pub proof fn lemma_named_round_trip(x: Self)
        requires
            !(x is UnknownValue),
        ensures
            x.codes().len() == 1,
            Self::named_of(x.codes()[0]) == Some(x),
            Self::decodes(x.codes(), x),
    {
    }
}

/// Special processing applied.
#[allow(non_camel_case_types)]
#[derive(Clone, Debug, PartialEq, Eq)]
pub enum CustomRendered {
    Normal,
    Custom,
    HDRNoOriginalSaved,
    HDROriginalSaved,
    OriginalForHDR,
    Panorama,
    PortraitHDR,
    Portrait,
    UnknownValue(Vec<u16>),
}

impl CustomRendered {
    /// The named value a single code stands for, if any.
    pub open spec fn named_of(c: u16) -> Option<CustomRendered> {
        if c == 0 {
            Some(CustomRendered::Normal)
        } else if c == 1 {
            Some(CustomRendered::Custom)
        } else if c == 2 {
            Some(CustomRendered::HDRNoOriginalSaved)
        } else if c == 3 {
            Some(CustomRendered::HDROriginalSaved)
        } else if c == 4 {
            Some(CustomRendered::OriginalForHDR)
        } else if c == 6 {
            Some(CustomRendered::Panorama)
        } else if c == 7 {
            Some(CustomRendered::PortraitHDR)
        } else if c == 8 {
            Some(CustomRendered::Portrait)
        } else {
            None
        }
    }

    /// `r` is what decoding the raw codes `v` gives: the named value for one known code, an
    /// unknown value holding `v` otherwise.
    pub open spec fn decodes(v: Seq<u16>, r: Self) -> bool {
        &&& r.codes() == v
        &&& v.len() == 1 && Self::named_of(v[0]) is Some ==> Some(r) == Self::named_of(v[0])
        &&& !(v.len() == 1 && Self::named_of(v[0]) is Some) ==> r is UnknownValue
    }

    /// The raw codes of the value.
    pub open spec fn codes(&self) -> Seq<u16> {
        match self {
            CustomRendered::Normal => seq![0u16],
            CustomRendered::Custom => seq![1u16],
            CustomRendered::HDRNoOriginalSaved => seq![2u16],
            CustomRendered::HDROriginalSaved => seq![3u16],
            CustomRendered::OriginalForHDR => seq![4u16],
            CustomRendered::Panorama => seq![6u16],
            CustomRendered::PortraitHDR => seq![7u16],
            CustomRendered::Portrait => seq![8u16],
            CustomRendered::UnknownValue(v) => v@,
        }
    }

    /// The codes of the named values, in listing order.
    pub open spec fn listed() -> Seq<u16> {
        seq![0u16, 1u16, 2u16, 3u16, 4u16, 6u16, 7u16, 8u16]
    }

    /// Display name of the value.
    pub open spec fn text(&self) -> Seq<char> {
        match self {
            CustomRendered::Normal => "Normal"@,
            CustomRendered::Custom => "Custom"@,
            CustomRendered::HDRNoOriginalSaved => "HDRNoOriginalSaved"@,
            CustomRendered::HDROriginalSaved => "HDROriginalSaved"@,
            CustomRendered::OriginalForHDR => "OriginalForHDR"@,
            CustomRendered::Panorama => "Panorama"@,
            CustomRendered::PortraitHDR => "PortraitHDR"@,
            CustomRendered::Portrait => "Portrait"@,
            CustomRendered::UnknownValue(v) => "UnknownValue"@ + list_dec(v@.map_values(|x: u16| x as int)),
        }
    }

    pub fn to_vec(&self) -> (r: Vec<u16>)
        ensures
            r@ == self.codes(),
    {
        match self {
            CustomRendered::Normal => vec![0],
            CustomRendered::Custom => vec![1],
            CustomRendered::HDRNoOriginalSaved => vec![2],
            CustomRendered::HDROriginalSaved => vec![3],
            CustomRendered::OriginalForHDR => vec![4],
            CustomRendered::Panorama => vec![6],
            CustomRendered::PortraitHDR => vec![7],
            CustomRendered::Portrait => vec![8],
            CustomRendered::UnknownValue(v) => copy_u16s(v.as_slice()),
        }
    }

    /// Decodes raw codes; anything but one known code is kept as it is.
    pub fn from_vec(v: &[u16]) -> (r: Self)
        ensures
            r.codes() == v@,
            v@.len() == 1 && Self::named_of(v@[0]) is Some ==> Some(r) == Self::named_of(v@[0]),
            !(v@.len() == 1 && Self::named_of(v@[0]) is Some) ==> r is UnknownValue,
    {
        if v.len() != 1 {
            return CustomRendered::UnknownValue(copy_u16s(v));
        }
        match v[0] {
            0 => CustomRendered::Normal,
            1 => CustomRendered::Custom,
            2 => CustomRendered::HDRNoOriginalSaved,
            3 => CustomRendered::HDROriginalSaved,
            4 => CustomRendered::OriginalForHDR,
            6 => CustomRendered::Panorama,
            7 => CustomRendered::PortraitHDR,
            8 => CustomRendered::Portrait,
            _ => CustomRendered::UnknownValue(copy_u16s(v)),
        }
    }

    /// Decodes codes stored one per byte.
    pub fn from_u8_vec(v: &[u8]) -> (r: Self)
        ensures
            r.codes() == v@.map_values(|b: u8| b as u16),
            v@.len() == 1 && Self::named_of(v@[0] as u16) is Some ==> Some(r) == Self::named_of(v@[0] as u16),
            !(v@.len() == 1 && Self::named_of(v@[0] as u16) is Some) ==> r is UnknownValue,
    {
        let w = widen_bytes(v);
        Self::from_vec(w.as_slice())
    }

    /// What `from_vec` gives for the codes `c`, as far as it is fixed.
    pub fn to_string(&self) -> (r: String)
        ensures
            r@ == self.text(),
    {
        match self {
            CustomRendered::Normal => String::from_str("Normal"),
            CustomRendered::Custom => String::from_str("Custom"),
            CustomRendered::HDRNoOriginalSaved => String::from_str("HDRNoOriginalSaved"),
            CustomRendered::HDROriginalSaved => String::from_str("HDROriginalSaved"),
            CustomRendered::OriginalForHDR => String::from_str("OriginalForHDR"),
            CustomRendered::Panorama => String::from_str("Panorama"),
            CustomRendered::PortraitHDR => String::from_str("PortraitHDR"),
            CustomRendered::Portrait => String::from_str("Portrait"),
            CustomRendered::UnknownValue(v) => {
                let mut s = String::from_str("UnknownValue");
                let w = widen_u16s(v.as_slice());
                let t = list_text(w.as_slice());
                s.append(t.as_str());
                s
            }
        }
    }

    /// The value used when nothing is known yet.
    pub fn unknown() -> (r: Self)
        ensures
            r is UnknownValue,
            r.codes() == seq![255u16],
    {
        CustomRendered::UnknownValue(vec![255])
    }

    /// The first raw code.
    pub fn to_u16(&self) -> (r: u16)
        requires
            self.codes().len() > 0,
        ensures
            r == self.codes()[0],
    {
        let v = self.to_vec();
        v[0]
    }

    pub fn from_u16(value: u16) -> (r: Self)
        ensures
            r.codes() == seq![value],
            Self::named_of(value) is Some ==> Some(r) == Self::named_of(value),
            Self::named_of(value) is None ==> r is UnknownValue,
    {
        let v: Vec<u16> = vec![value];
        proof {
            assert(v@ =~= seq![value]);
        }
        Self::from_vec(v.as_slice())
    }

    /// Every named value with its code, and the value itself at the end when it is unknown.
    pub fn all(&self) -> (r: Vec<(u16, Self)>)
        ensures
            r@.len() == (if self is UnknownValue { 9nat } else { 8nat }),
            forall|i: int| 0 <= i < 8 ==> r@[i].0 == Self::listed()[i] && Self::named_of(r@[i].0) == Some(r@[i].1),
            self is UnknownValue ==> r@[8].0 == 255 && r@[8].1 is UnknownValue && r@[8].1.codes() == self.codes(),
    {
        let mut r: Vec<(u16, Self)> = Vec::new();
        r.push((0, CustomRendered::Normal));
        r.push((1, CustomRendered::Custom));
        r.push((2, CustomRendered::HDRNoOriginalSaved));
        r.push((3, CustomRendered::HDROriginalSaved));
        r.push((4, CustomRendered::OriginalForHDR));
        r.push((6, CustomRendered::Panorama));
        r.push((7, CustomRendered::PortraitHDR));
        r.push((8, CustomRendered::Portrait));
        if let CustomRendered::UnknownValue(v) = self {
            r.push((255, CustomRendered::UnknownValue(copy_u16s(v.as_slice()))));
        }
        r
    }

    /// Decoding the code of a named value gives that value back.
    pub proof fn lemma_named_round_trip(x: Self)
        requires
            !(x is UnknownValue),
        ensures
            x.codes().len() == 1,
            Self::named_of(x.codes()[0]) == Some(x),
            Self::decodes(x.codes(), x),
    {
    }
}

/// Whether the image is a composite.
#[allow(non_camel_case_types)]
#[derive(Clone, Debug, PartialEq, Eq)]
pub enum CompositeImage {
    Unknown,
    NotAComPositeImage,
    GeneralCompositeImage,
    CompositeImageCapturesWhileShooting,
    UnknownValue(Vec<u16>),
}

impl CompositeImage {
    /// The named value a single code stands for, if any.
    pub open spec fn named_of(c: u16) -> Option<CompositeImage> {
        if c == 0 {
            Some(CompositeImage::Unknown)
        } else if c == 1 {
            Some(CompositeImage::NotAComPositeImage)
        } else if c == 2 {
            Some(CompositeImage::GeneralCompositeImage)
        } else if c == 3 {
            Some(CompositeImage::CompositeImageCapturesWhileShooting)
        } else {
            None
        }
    }

    /// `r` is what decoding the raw codes `v` gives: the named value for one known code, an
    /// unknown value holding `v` otherwise.
    pub open spec fn decodes(v: Seq<u16>, r: Self) -> bool {
        &&& r.codes() == v
        &&& v.len() == 1 && Self::named_of(v[0]) is Some ==> Some(r) == Self::named_of(v[0])
        &&& !(v.len() == 1 && Self::named_of(v[0]) is Some) ==> r is UnknownValue
    }

    /// The raw codes of the value.
    pub open spec fn codes(&self) -> Seq<u16> {
        match self {
            CompositeImage::Unknown => seq![0u16],
            CompositeImage::NotAComPositeImage => seq![1u16],
            CompositeImage::GeneralCompositeImage => seq![2u16],
            CompositeImage::CompositeImageCapturesWhileShooting => seq![3u16],
            CompositeImage::UnknownValue(v) => v@,
        }
    }

    /// The codes of the named values, in listing order.
    pub open spec fn listed() -> Seq<u16> {
        seq![0u16, 1u16, 2u16, 3u16]
    }

    /// Display name of the value.
    pub open spec fn text(&self) -> Seq<char> {
        match self {
            CompositeImage::Unknown => "Unknown"@,
            CompositeImage::NotAComPositeImage => "NotAComPositeImage"@,
            CompositeImage::GeneralCompositeImage => "GeneralCompositeImage"@,
            CompositeImage::CompositeImageCapturesWhileShooting => "CompositeImageCapturesWhileShooting"@,
            CompositeImage::UnknownValue(v) => "UnknownValue"@ + list_dec(v@.map_values(|x: u16| x as int)),
        }
    }

    pub fn to_vec(&self) -> (r: Vec<u16>)
        ensures
            r@ == self.codes(),
    {
        match self {
            CompositeImage::Unknown => vec![0],
            CompositeImage::NotAComPositeImage => vec![1],
            CompositeImage::GeneralCompositeImage => vec![2],
            CompositeImage::CompositeImageCapturesWhileShooting => vec![3],
            CompositeImage::UnknownValue(v) => copy_u16s(v.as_slice()),
        }
    }

    /// Decodes raw codes; anything but one known code is kept as it is.
    pub fn from_vec(v: &[u16]) -> (r: Self)
        ensures
            r.codes() == v@,
            v@.len() == 1 && Self::named_of(v@[0]) is Some ==> Some(r) == Self::named_of(v@[0]),
            !(v@.len() == 1 && Self::named_of(v@[0]) is Some) ==> r is UnknownValue,
    {
        if v.len() != 1 {
            return CompositeImage::UnknownValue(copy_u16s(v));
        }
        match v[0] {
            0 => CompositeImage::Unknown,
            1 => CompositeImage::NotAComPositeImage,
            2 => CompositeImage::GeneralCompositeImage,
            3 => CompositeImage::CompositeImageCapturesWhileShooting,
            _ => CompositeImage::UnknownValue(copy_u16s(v)),
        }
    }

    /// Decodes codes stored one per byte.
    pub fn from_u8_vec(v: &[u8]) -> (r: Self)
        ensures
            r.codes() == v@.map_values(|b: u8| b as u16),
            v@.len() == 1 && Self::named_of(v@[0] as u16) is Some ==> Some(r) == Self::named_of(v@[0] as u16),
            !(v@.len() == 1 && Self::named_of(v@[0] as u16) is Some) ==> r is UnknownValue,
    {
        let w = widen_bytes(v);
        Self::from_vec(w.as_slice())
    }

    /// What `from_vec` gives for the codes `c`, as far as it is fixed.
    pub fn to_string(&self) -> (r: String)
        ensures
            r@ == self.text(),
    {
        match self {
            CompositeImage::Unknown => String::from_str("Unknown"),
            CompositeImage::NotAComPositeImage => String::from_str("NotAComPositeImage"),
            CompositeImage::GeneralCompositeImage => String::from_str("GeneralCompositeImage"),
            CompositeImage::CompositeImageCapturesWhileShooting => String::from_str("CompositeImageCapturesWhileShooting"),
            CompositeImage::UnknownValue(v) => {
                let mut s = String::from_str("UnknownValue");
                let w = widen_u16s(v.as_slice());
                let t = list_text(w.as_slice());
                s.append(t.as_str());
                s
            }
        }
    }

    /// The value used when nothing is known yet.
    pub fn unknown() -> (r: Self)
        ensures
            r is UnknownValue,
            r.codes() == seq![255u16],
    {
        CompositeImage::UnknownValue(vec![255])
    }

    /// The first raw code.
    pub fn to_u16(&self) -> (r: u16)
        requires
            self.codes().len() > 0,
        ensures
            r == self.codes()[0],
    {
        let v = self.to_vec();
        v[0]
    }

    pub fn from_u16(value: u16) -> (r: Self)
        ensures
            r.codes() == seq![value],
            Self::named_of(value) is Some ==> Some(r) == Self::named_of(value),
            Self::named_of(value) is None ==> r is UnknownValue,
    {
        let v: Vec<u16> = vec![value];
        proof {
            assert(v@ =~= seq![value]);
        }
        Self::from_vec(v.as_slice())
    }

    /// Every named value with its code, and the value itself at the end when it is unknown.
    pub fn all(&self) -> (r: Vec<(u16, Self)>)
        ensures
            r@.len() == (if self is UnknownValue { 5nat } else { 4nat }),
            forall|i: int| 0 <= i < 4 ==> r@[i].0 == Self::listed()[i] && Self::named_of(r@[i].0) == Some(r@[i].1),
            self is UnknownValue ==> r@[4].0 == 255 && r@[4].1 is UnknownValue && r@[4].1.codes() == self.codes(),
    {
        let mut r: Vec<(u16, Self)> = Vec::new();
        r.push((0, CompositeImage::Unknown));
        r.push((1, CompositeImage::NotAComPositeImage));
        r.push((2, CompositeImage::GeneralCompositeImage));
        r.push((3, CompositeImage::CompositeImageCapturesWhileShooting));
        if let CompositeImage::UnknownValue(v) = self {
            r.push((255, CompositeImage::UnknownValue(copy_u16s(v.as_slice()))));
        }
        r
    }

    /// Decoding the code of a named value gives that value back.
    pub proof fn lemma_named_round_trip(x: Self)
        requires
            !(x is UnknownValue),
        ensures
            x.codes().len() == 1,
            Self::named_of(x.codes()[0]) == Some(x),
            Self::decodes(x.codes(), x),
    {
    }
}

} // verus!
