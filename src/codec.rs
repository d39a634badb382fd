//! Enumerated values: integer-coded ones with an escape for unrecognised codes, and
//! string-coded ones that fall back to a default.
use vstd::prelude::*;
use vstd::string::StringExecFns;
use crate::text::{list_dec, list_text, str_eq, widen_u16s};

verus! {

/// A copy of a list of codes.
pub fn copy_u16s(v: &[u16]) -> (r: Vec<u16>)
    ensures
        r@ == v@,
{
    let mut r: Vec<u16> = Vec::new();
    let mut i: usize = 0;
    while i < v.len()
        invariant
            0 <= i <= v@.len(),
            r@ == v@.take(i as int),
        decreases v@.len() - i,
    {
        r.push(v[i]);
        i = i + 1;
        assert(r@ =~= v@.take(i as int));
    }
    assert(v@.take(v@.len() as int) =~= v@);
    r
}

/// Codes stored one per byte, widened.
pub fn widen_bytes(v: &[u8]) -> (r: Vec<u16>)
    ensures
        r@ == v@.map_values(|b: u8| b as u16),
{
    let mut r: Vec<u16> = Vec::new();
    let mut i: usize = 0;
    while i < v.len()
        invariant
            0 <= i <= v@.len(),
            r@ == v@.take(i as int).map_values(|b: u8| b as u16),
        decreases v@.len() - i,
    {
        r.push(v[i] as u16);
        i = i + 1;
        assert(r@ =~= v@.take(i as int).map_values(|b: u8| b as u16));
    }
    assert(v@.take(v@.len() as int) =~= v@);
    r
}

/// Unit of the resolution values.
#[allow(non_camel_case_types)]
#[derive(Clone, Debug, PartialEq, Eq)]
pub enum ResolutionUnit {
    NoUnit,
    Inches,
    cm,
    UnknownValue(Vec<u16>),
}

impl ResolutionUnit {
    /// The named value a single code stands for, if any.
    pub open spec fn named_of(c: u16) -> Option<ResolutionUnit> {
        if c == 1 {
            Some(ResolutionUnit::NoUnit)
        } else if c == 2 {
            Some(ResolutionUnit::Inches)
        } else if c == 3 {
            Some(ResolutionUnit::cm)
        } else {
            None
        }
    }

    /// `r` is what decoding the raw codes `v` gives: the named value for one known code, an
    /// unknown value holding `v` otherwise.
    pub open spec fn decodes(v: Seq<u16>, r: Self) -> bool {
        &&& r.codes() == v
        &&& v.len() == 1 && Self::named_of(v[0]) is Some ==> Some(r) == Self::named_of(v[0])
        &&& !(v.len() == 1 && Self::named_of(v[0]) is Some) ==> r is UnknownValue
    }

    /// The raw codes of the value.
    pub open spec fn codes(&self) -> Seq<u16> {
        match self {
            ResolutionUnit::NoUnit => seq![1u16],
            ResolutionUnit::Inches => seq![2u16],
            ResolutionUnit::cm => seq![3u16],
            ResolutionUnit::UnknownValue(v) => v@,
        }
    }

    /// The codes of the named values, in listing order.
    pub open spec fn listed() -> Seq<u16> {
        seq![1u16, 2u16, 3u16]
    }

    /// Display name of the value.
    pub open spec fn text(&self) -> Seq<char> {
        match self {
            ResolutionUnit::NoUnit => "NoUnit"@,
            ResolutionUnit::Inches => "Inches"@,
            ResolutionUnit::cm => "cm"@,
            ResolutionUnit::UnknownValue(v) => "UnknownValue"@ + list_dec(v@.map_values(|x: u16| x as int)),
        }
    }

    pub fn to_vec(&self) -> (r: Vec<u16>)
        ensures
            r@ == self.codes(),
    {
        match self {
            ResolutionUnit::NoUnit => vec![1],
            ResolutionUnit::Inches => vec![2],
            ResolutionUnit::cm => vec![3],
            ResolutionUnit::UnknownValue(v) => copy_u16s(v.as_slice()),
        }
    }

    /// Decodes raw codes; anything but one known code is kept as it is.
    pub fn from_vec(v: &[u16]) -> (r: Self)
        ensures
            r.codes() == v@,
            v@.len() == 1 && Self::named_of(v@[0]) is Some ==> Some(r) == Self::named_of(v@[0]),
            !(v@.len() == 1 && Self::named_of(v@[0]) is Some) ==> r is UnknownValue,
    {
        if v.len() != 1 {
            return ResolutionUnit::UnknownValue(copy_u16s(v));
        }
        match v[0] {
            1 => ResolutionUnit::NoUnit,
            2 => ResolutionUnit::Inches,
            3 => ResolutionUnit::cm,
            _ => ResolutionUnit::UnknownValue(copy_u16s(v)),
        }
    }

    /// Decodes codes stored one per byte.
    pub fn from_u8_vec(v: &[u8]) -> (r: Self)
        ensures
            r.codes() == v@.map_values(|b: u8| b as u16),
            v@.len() == 1 && Self::named_of(v@[0] as u16) is Some ==> Some(r) == Self::named_of(v@[0] as u16),
            !(v@.len() == 1 && Self::named_of(v@[0] as u16) is Some) ==> r is UnknownValue,
    {
        let w = widen_bytes(v);
        Self::from_vec(w.as_slice())
    }

    /// What `from_vec` gives for the codes `c`, as far as it is fixed.
    pub fn to_string(&self) -> (r: String)
        ensures
            r@ == self.text(),
    {
        match self {
            ResolutionUnit::NoUnit => String::from_str("NoUnit"),
            ResolutionUnit::Inches => String::from_str("Inches"),
            ResolutionUnit::cm => String::from_str("cm"),
            ResolutionUnit::UnknownValue(v) => {
                let mut s = String::from_str("UnknownValue");
                let w = widen_u16s(v.as_slice());
                let t = list_text(w.as_slice());
                s.append(t.as_str());
                s
            }
        }
    }

    /// The value used when nothing is known yet.
    pub fn unknown() -> (r: Self)
        ensures
            r is UnknownValue,
            r.codes() == seq![0u16],
    {
        ResolutionUnit::UnknownValue(vec![0])
    }

    /// The first raw code.
    pub fn to_u16(&self) -> (r: u16)
        requires
            self.codes().len() > 0,
        ensures
            r == self.codes()[0],
    {
        let v = self.to_vec();
        v[0]
    }

    pub fn from_u16(value: u16) -> (r: Self)
        ensures
            r.codes() == seq![value],
            Self::named_of(value) is Some ==> Some(r) == Self::named_of(value),
            Self::named_of(value) is None ==> r is UnknownValue,
    {
        let v: Vec<u16> = vec![value];
        proof {
            assert(v@ =~= seq![value]);
        }
        Self::from_vec(v.as_slice())
    }

    /// Every named value with its code, and the value itself at the end when it is unknown.
    pub fn all(&self) -> (r: Vec<(u16, Self)>)
        ensures
            r@.len() == (if self is UnknownValue { 4nat } else { 3nat }),
            forall|i: int| 0 <= i < 3 ==> r@[i].0 == Self::listed()[i] && Self::named_of(r@[i].0) == Some(r@[i].1),
            self is UnknownValue ==> r@[3].0 == 0 && r@[3].1 is UnknownValue && r@[3].1.codes() == self.codes(),
    {
        let mut r: Vec<(u16, Self)> = Vec::new();
        r.push((1, ResolutionUnit::NoUnit));
        r.push((2, ResolutionUnit::Inches));
        r.push((3, ResolutionUnit::cm));
        if let ResolutionUnit::UnknownValue(v) = self {
            r.push((0, ResolutionUnit::UnknownValue(copy_u16s(v.as_slice()))));
        }
        r
    }

    /// Decoding the code of a named value gives that value back.
    pub proof fn lemma_named_round_trip(x: Self)
        requires
            !(x is UnknownValue),
        ensures
            x.codes().len() == 1,
            Self::named_of(x.codes()[0]) == Some(x),
            Self::decodes(x.codes(), x),
    {
    }
}

/// How the stored image is turned or mirrored.
#[allow(non_camel_case_types)]
#[derive(Clone, Debug, PartialEq, Eq)]
pub enum Orientation {
    Horizontal,
    MirrorHorizontal,
    Rotate180,
    MirrorVertical,
    MirrorHorizontalAndRotate270CW,
    Rotate90CW,
    MirrorHorizontalAndRotate90CW,
    Rotate270CW,
    UnknownValue(Vec<u16>),
}

impl Orientation {
    /// The named value a single code stands for, if any.
    pub open spec fn named_of(c: u16) -> Option<Orientation> {
        if c == 1 {
            Some(Orientation::Horizontal)
        } else if c == 2 {
            Some(Orientation::MirrorHorizontal)
        } else if c == 3 {
            Some(Orientation::Rotate180)
        } else if c == 4 {
            Some(Orientation::MirrorVertical)
        } else if c == 5 {
            Some(Orientation::MirrorHorizontalAndRotate270CW)
        } else if c == 6 {
            Some(Orientation::Rotate90CW)
        } else if c == 7 {
            Some(Orientation::MirrorHorizontalAndRotate90CW)
        } else if c == 8 {
            Some(Orientation::Rotate270CW)
        } else {
            None
        }
    }

    /// `r` is what decoding the raw codes `v` gives: the named value for one known code, an
    /// unknown value holding `v` otherwise.
    pub open spec fn decodes(v: Seq<u16>, r: Self) -> bool {
        &&& r.codes() == v
        &&& v.len() == 1 && Self::named_of(v[0]) is Some ==> Some(r) == Self::named_of(v[0])
        &&& !(v.len() == 1 && Self::named_of(v[0]) is Some) ==> r is UnknownValue
    }

    /// The raw codes of the value.
    pub open spec fn codes(&self) -> Seq<u16> {
        match self {
            Orientation::Horizontal => seq![1u16],
            Orientation::MirrorHorizontal => seq![2u16],
            Orientation::Rotate180 => seq![3u16],
            Orientation::MirrorVertical => seq![4u16],
            Orientation::MirrorHorizontalAndRotate270CW => seq![5u16],
            Orientation::Rotate90CW => seq![6u16],
            Orientation::MirrorHorizontalAndRotate90CW => seq![7u16],
            Orientation::Rotate270CW => seq![8u16],
            Orientation::UnknownValue(v) => v@,
        }
    }

    /// The codes of the named values, in listing order.
    pub open spec fn listed() -> Seq<u16> {
        seq![1u16, 2u16, 3u16, 4u16, 5u16, 6u16, 7u16, 8u16]
    }

    /// Display name of the value.
    pub open spec fn text(&self) -> Seq<char> {
        match self {
            Orientation::Horizontal => "Horizontal"@,
            Orientation::MirrorHorizontal => "MirrorHorizontal"@,
            Orientation::Rotate180 => "Rotate180"@,
            Orientation::MirrorVertical => "MirrorVertical"@,
            Orientation::MirrorHorizontalAndRotate270CW => "MirrorHorizontalAndRotate270CW"@,
            Orientation::Rotate90CW => "Rotate90CW"@,
            Orientation::MirrorHorizontalAndRotate90CW => "MirrorHorizontalAndRotate90CW"@,
            Orientation::Rotate270CW => "Rotate270CW"@,
            Orientation::UnknownValue(v) => "UnknownValue"@ + list_dec(v@.map_values(|x: u16| x as int)),
        }
    }

    pub fn to_vec(&self) -> (r: Vec<u16>)
        ensures
            r@ == self.codes(),
    {
        match self {
            Orientation::Horizontal => vec![1],
            Orientation::MirrorHorizontal => vec![2],
            Orientation::Rotate180 => vec![3],
            Orientation::MirrorVertical => vec![4],
            Orientation::MirrorHorizontalAndRotate270CW => vec![5],
            Orientation::Rotate90CW => vec![6],
            Orientation::MirrorHorizontalAndRotate90CW => vec![7],
            Orientation::Rotate270CW => vec![8],
            Orientation::UnknownValue(v) => copy_u16s(v.as_slice()),
        }
    }

    /// Decodes raw codes; anything but one known code is kept as it is.
    pub fn from_vec(v: &[u16]) -> (r: Self)
        ensures
            r.codes() == v@,
            v@.len() == 1 && Self::named_of(v@[0]) is Some ==> Some(r) == Self::named_of(v@[0]),
            !(v@.len() == 1 && Self::named_of(v@[0]) is Some) ==> r is UnknownValue,
    {
        if v.len() != 1 {
            return Orientation::UnknownValue(copy_u16s(v));
        }
        match v[0] {
            1 => Orientation::Horizontal,
            2 => Orientation::MirrorHorizontal,
            3 => Orientation::Rotate180,
            4 => Orientation::MirrorVertical,
            5 => Orientation::MirrorHorizontalAndRotate270CW,
            6 => Orientation::Rotate90CW,
            7 => Orientation::MirrorHorizontalAndRotate90CW,
            8 => Orientation::Rotate270CW,
            _ => Orientation::UnknownValue(copy_u16s(v)),
        }
    }

    /// Decodes codes stored one per byte.
    pub fn from_u8_vec(v: &[u8]) -> (r: Self)
        ensures
            r.codes() == v@.map_values(|b: u8| b as u16),
            v@.len() == 1 && Self::named_of(v@[0] as u16) is Some ==> Some(r) == Self::named_of(v@[0] as u16),
            !(v@.len() == 1 && Self::named_of(v@[0] as u16) is Some) ==> r is UnknownValue,
    {
        let w = widen_bytes(v);
        Self::from_vec(w.as_slice())
    }

    /// What `from_vec` gives for the codes `c`, as far as it is fixed.
    pub fn to_string(&self) -> (r: String)
        ensures
            r@ == self.text(),
    {
        match self {
            Orientation::Horizontal => String::from_str("Horizontal"),
            Orientation::MirrorHorizontal => String::from_str("MirrorHorizontal"),
            Orientation::Rotate180 => String::from_str("Rotate180"),
            Orientation::MirrorVertical => String::from_str("MirrorVertical"),
            Orientation::MirrorHorizontalAndRotate270CW => String::from_str("MirrorHorizontalAndRotate270CW"),
            Orientation::Rotate90CW => String::from_str("Rotate90CW"),
            Orientation::MirrorHorizontalAndRotate90CW => String::from_str("MirrorHorizontalAndRotate90CW"),
            Orientation::Rotate270CW => String::from_str("Rotate270CW"),
            Orientation::UnknownValue(v) => {
                let mut s = String::from_str("UnknownValue");
                let w = widen_u16s(v.as_slice());
                let t = list_text(w.as_slice());
                s.append(t.as_str());
                s
            }
        }
    }

    /// The value used when nothing is known yet.
    pub fn unknown() -> (r: Self)
        ensures
            r is UnknownValue,
            r.codes() == seq![0u16],
    {
        Orientation::UnknownValue(vec![0])
    }

    /// The first raw code.
    pub fn to_u16(&self) -> (r: u16)
        requires
            self.codes().len() > 0,
        ensures
            r == self.codes()[0],
    {
        let v = self.to_vec();
        v[0]
    }

    pub fn from_u16(value: u16) -> (r: Self)
        ensures
            r.codes() == seq![value],
            Self::named_of(value) is Some ==> Some(r) == Self::named_of(value),
            Self::named_of(value) is None ==> r is UnknownValue,
    {
        let v: Vec<u16> = vec![value];
        proof {
            assert(v@ =~= seq![value]);
        }
        Self::from_vec(v.as_slice())
    }

    /// Every named value with its code, and the value itself at the end when it is unknown.
    pub fn all(&self) -> (r: Vec<(u16, Self)>)
        ensures
            r@.len() == (if self is UnknownValue { 9nat } else { 8nat }),
            forall|i: int| 0 <= i < 8 ==> r@[i].0 == Self::listed()[i] && Self::named_of(r@[i].0) == Some(r@[i].1),
            self is UnknownValue ==> r@[8].0 == 0 && r@[8].1 is UnknownValue && r@[8].1.codes() == self.codes(),
    {
        let mut r: Vec<(u16, Self)> = Vec::new();
        r.push((1, Orientation::Horizontal));
        r.push((2, Orientation::MirrorHorizontal));
        r.push((3, Orientation::Rotate180));
        r.push((4, Orientation::MirrorVertical));
        r.push((5, Orientation::MirrorHorizontalAndRotate270CW));
        r.push((6, Orientation::Rotate90CW));
        r.push((7, Orientation::MirrorHorizontalAndRotate90CW));
        r.push((8, Orientation::Rotate270CW));
        if let Orientation::UnknownValue(v) = self {
            r.push((0, Orientation::UnknownValue(copy_u16s(v.as_slice()))));
        }
        r
    }

    /// Decoding the code of a named value gives that value back.
    pub proof fn lemma_named_round_trip(x: Self)
        requires
            !(x is UnknownValue),
        ensures
            x.codes().len() == 1,
            Self::named_of(x.codes()[0]) == Some(x),
            Self::decodes(x.codes(), x),
    {
    }
}

/// Meaning of one channel of the compressed data.
#[allow(non_camel_case_types)]
#[derive(Clone, Debug, PartialEq, Eq)]
pub enum ComponentsConfiguration {
    Unused,
    Y,
    Cb,
    Cr,
    R,
    G,
    B,
    UnknownValue(Vec<u16>),
}

impl ComponentsConfiguration {
    /// The named value a single code stands for, if any.
    pub open spec fn named_of(c: u16) -> Option<ComponentsConfiguration> {
        if c == 0 {
            Some(ComponentsConfiguration::Unused)
        } else if c == 1 {
            Some(ComponentsConfiguration::Y)
        } else if c == 2 {
            Some(ComponentsConfiguration::Cb)
        } else if c == 3 {
            Some(ComponentsConfiguration::Cr)
        } else if c == 4 {
            Some(ComponentsConfiguration::R)
        } else if c == 5 {
            Some(ComponentsConfiguration::G)
        } else if c == 6 {
            Some(ComponentsConfiguration::B)
        } else {
            None
        }
    }

    /// `r` is what decoding the raw codes `v` gives: the named value for one known code, an
    /// unknown value holding `v` otherwise.
    pub open spec fn decodes(v: Seq<u16>, r: Self) -> bool {
        &&& r.codes() == v
        &&& v.len() == 1 && Self::named_of(v[0]) is Some ==> Some(r) == Self::named_of(v[0])
        &&& !(v.len() == 1 && Self::named_of(v[0]) is Some) ==> r is UnknownValue
    }

    /// The raw codes of the value.
    pub open spec fn codes(&self) -> Seq<u16> {
        match self {
            ComponentsConfiguration::Unused => seq![0u16],
            ComponentsConfiguration::Y => seq![1u16],
            ComponentsConfiguration::Cb => seq![2u16],
            ComponentsConfiguration::Cr => seq![3u16],
            ComponentsConfiguration::R => seq![4u16],
            ComponentsConfiguration::G => seq![5u16],
            ComponentsConfiguration::B => seq![6u16],
            ComponentsConfiguration::UnknownValue(v) => v@,
        }
    }

    /// The codes of the named values, in listing order.
    pub open spec fn listed() -> Seq<u16> {
        seq![0u16, 1u16, 2u16, 3u16, 4u16, 5u16, 6u16]
    }

    /// Display name of the value.
    pub open spec fn text(&self) -> Seq<char> {
        match self {
            ComponentsConfiguration::Unused => "Unused"@,
            ComponentsConfiguration::Y => "Y"@,
            ComponentsConfiguration::Cb => "Cb"@,
            ComponentsConfiguration::Cr => "Cr"@,
            ComponentsConfiguration::R => "R"@,
            ComponentsConfiguration::G => "G"@,
            ComponentsConfiguration::B => "B"@,
            ComponentsConfiguration::UnknownValue(v) => "UnknownValue"@ + list_dec(v@.map_values(|x: u16| x as int)),
        }
    }

    pub fn to_vec(&self) -> (r: Vec<u16>)
        ensures
            r@ == self.codes(),
    {
        match self {
            ComponentsConfiguration::Unused => vec![0],
            ComponentsConfiguration::Y => vec![1],
            ComponentsConfiguration::Cb => vec![2],
            ComponentsConfiguration::Cr => vec![3],
            ComponentsConfiguration::R => vec![4],
            ComponentsConfiguration::G => vec![5],
            ComponentsConfiguration::B => vec![6],
            ComponentsConfiguration::UnknownValue(v) => copy_u16s(v.as_slice()),
        }
    }

    /// Decodes raw codes; anything but one known code is kept as it is.
    pub fn from_vec(v: &[u16]) -> (r: Self)
        ensures
            r.codes() == v@,
            v@.len() == 1 && Self::named_of(v@[0]) is Some ==> Some(r) == Self::named_of(v@[0]),
            !(v@.len() == 1 && Self::named_of(v@[0]) is Some) ==> r is UnknownValue,
    {
        if v.len() != 1 {
            return ComponentsConfiguration::UnknownValue(copy_u16s(v));
        }
        match v[0] {
            0 => ComponentsConfiguration::Unused,
            1 => ComponentsConfiguration::Y,
            2 => ComponentsConfiguration::Cb,
            3 => ComponentsConfiguration::Cr,
            4 => ComponentsConfiguration::R,
            5 => ComponentsConfiguration::G,
            6 => ComponentsConfiguration::B,
            _ => ComponentsConfiguration::UnknownValue(copy_u16s(v)),
        }
    }

    /// Decodes codes stored one per byte.
    pub fn from_u8_vec(v: &[u8]) -> (r: Self)
        ensures
            r.codes() == v@.map_values(|b: u8| b as u16),
            v@.len() == 1 && Self::named_of(v@[0] as u16) is Some ==> Some(r) == Self::named_of(v@[0] as u16),
            !(v@.len() == 1 && Self::named_of(v@[0] as u16) is Some) ==> r is UnknownValue,
    {
        let w = widen_bytes(v);
        Self::from_vec(w.as_slice())
    }

    /// What `from_vec` gives for the codes `c`, as far as it is fixed.
    pub fn to_string(&self) -> (r: String)
        ensures
            r@ == self.text(),
    {
        match self {
            ComponentsConfiguration::Unused => String::from_str("Unused"),
            ComponentsConfiguration::Y => String::from_str("Y"),
            ComponentsConfiguration::Cb => String::from_str("Cb"),
            ComponentsConfiguration::Cr => String::from_str("Cr"),
            ComponentsConfiguration::R => String::from_str("R"),
            ComponentsConfiguration::G => String::from_str("G"),
            ComponentsConfiguration::B => String::from_str("B"),
            ComponentsConfiguration::UnknownValue(v) => {
                let mut s = String::from_str("UnknownValue");
                let w = widen_u16s(v.as_slice());
                let t = list_text(w.as_slice());
                s.append(t.as_str());
                s
            }
        }
    }

    /// The value used when nothing is known yet.
    pub fn unknown() -> (r: Self)
        ensures
            r is UnknownValue,
            r.codes() == seq![65535u16],
    {
        ComponentsConfiguration::UnknownValue(vec![65535])
    }

    /// The first raw code.
    pub fn to_u16(&self) -> (r: u16)
        requires
            self.codes().len() > 0,
        ensures
            r == self.codes()[0],
    {
        let v = self.to_vec();
        v[0]
    }

    pub fn from_u16(value: u16) -> (r: Self)
        ensures
            r.codes() == seq![value],
            Self::named_of(value) is Some ==> Some(r) == Self::named_of(value),
            Self::named_of(value) is None ==> r is UnknownValue,
    {
        let v: Vec<u16> = vec![value];
        proof {
            assert(v@ =~= seq![value]);
        }
        Self::from_vec(v.as_slice())
    }

    /// Every named value with its code, and the value itself at the end when it is unknown.
    pub fn all(&self) -> (r: Vec<(u16, Self)>)
        ensures
            r@.len() == (if self is UnknownValue { 8nat } else { 7nat }),
            forall|i: int| 0 <= i < 7 ==> r@[i].0 == Self::listed()[i] && Self::named_of(r@[i].0) == Some(r@[i].1),
            self is UnknownValue ==> r@[7].0 == 65535 && r@[7].1 is UnknownValue && r@[7].1.codes() == self.codes(),
    {
        let mut r: Vec<(u16, Self)> = Vec::new();
        r.push((0, ComponentsConfiguration::Unused));
        r.push((1, ComponentsConfiguration::Y));
        r.push((2, ComponentsConfiguration::Cb));
        r.push((3, ComponentsConfiguration::Cr));
        r.push((4, ComponentsConfiguration::R));
        r.push((5, ComponentsConfiguration::G));
        r.push((6, ComponentsConfiguration::B));
        if let ComponentsConfiguration::UnknownValue(v) = self {
            r.push((65535, ComponentsConfiguration::UnknownValue(copy_u16s(v.as_slice()))));
        }
        r
    }

    /// Decoding the code of a named value gives that value back.
    pub proof fn lemma_named_round_trip(x: Self)
        requires
            !(x is UnknownValue),
        ensures
            x.codes().len() == 1,
            Self::named_of(x.codes()[0]) == Some(x),
            Self::decodes(x.codes(), x),
    {
    }
}

/// Colour of one cell of a colour filter array.
#[allow(non_camel_case_types)]
#[derive(Clone, Debug, PartialEq, Eq)]
pub enum CFA {
    Red,
    Green,
    Blue,
    Cyan,
    Magenta,
    Yellow,
    White,
    UnknownValue(Vec<u16>),
}

impl CFA {
    /// The named value a single code stands for, if any.
    pub open spec fn named_of(c: u16) -> Option<CFA> {
        if c == 0 {
            Some(CFA::Red)
        } else if c == 1 {
            Some(CFA::Green)
        } else if c == 2 {
            Some(CFA::Blue)
        } else if c == 3 {
            Some(CFA::Cyan)
        } else if c == 4 {
            Some(CFA::Magenta)
        } else if c == 5 {
            Some(CFA::Yellow)
        } else if c == 6 {
            Some(CFA::White)
        } else {
            None
        }
    }

    /// `r` is what decoding the raw codes `v` gives: the named value for one known code, an
    /// unknown value holding `v` otherwise.
    pub open spec fn decodes(v: Seq<u16>, r: Self) -> bool {
        &&& r.codes() == v
        &&& v.len() == 1 && Self::named_of(v[0]) is Some ==> Some(r) == Self::named_of(v[0])
        &&& !(v.len() == 1 && Self::named_of(v[0]) is Some) ==> r is UnknownValue
    }

    /// The raw codes of the value.
    pub open spec fn codes(&self) -> Seq<u16> {
        match self {
            CFA::Red => seq![0u16],
            CFA::Green => seq![1u16],
            CFA::Blue => seq![2u16],
            CFA::Cyan => seq![3u16],
            CFA::Magenta => seq![4u16],
            CFA::Yellow => seq![5u16],
            CFA::White => seq![6u16],
            CFA::UnknownValue(v) => v@,
        }
    }

    /// The codes of the named values, in listing order.
    pub open spec fn listed() -> Seq<u16> {
        seq![0u16, 1u16, 2u16, 3u16, 4u16, 5u16, 6u16]
    }

    /// Display name of the value.
    pub open spec fn text(&self) -> Seq<char> {
        match self {
            CFA::Red => "Red"@,
            CFA::Green => "Green"@,
            CFA::Blue => "Blue"@,
            CFA::Cyan => "Cyan"@,
            CFA::Magenta => "Magenta"@,
            CFA::Yellow => "Yellow"@,
            CFA::White => "White"@,
            CFA::UnknownValue(v) => "UnknownValue"@ + list_dec(v@.map_values(|x: u16| x as int)),
        }
    }

    pub fn to_vec(&self) -> (r: Vec<u16>)
        ensures
            r@ == self.codes(),
    {
        match self {
            CFA::Red => vec![0],
            CFA::Green => vec![1],
            CFA::Blue => vec![2],
            CFA::Cyan => vec![3],
            CFA::Magenta => vec![4],
            CFA::Yellow => vec![5],
            CFA::White => vec![6],
            CFA::UnknownValue(v) => copy_u16s(v.as_slice()),
        }
    }

    /// Decodes raw codes; anything but one known code is kept as it is.
    pub fn from_vec(v: &[u16]) -> (r: Self)
        ensures
            r.codes() == v@,
            v@.len() == 1 && Self::named_of(v@[0]) is Some ==> Some(r) == Self::named_of(v@[0]),
            !(v@.len() == 1 && Self::named_of(v@[0]) is Some) ==> r is UnknownValue,
    {
        if v.len() != 1 {
            return CFA::UnknownValue(copy_u16s(v));
        }
        match v[0] {
            0 => CFA::Red,
            1 => CFA::Green,
            2 => CFA::Blue,
            3 => CFA::Cyan,
            4 => CFA::Magenta,
            5 => CFA::Yellow,
            6 => CFA::White,
            _ => CFA::UnknownValue(copy_u16s(v)),
        }
    }

    /// Decodes codes stored one per byte.
    pub fn from_u8_vec(v: &[u8]) -> (r: Self)
        ensures
            r.codes() == v@.map_values(|b: u8| b as u16),
            v@.len() == 1 && Self::named_of(v@[0] as u16) is Some ==> Some(r) == Self::named_of(v@[0] as u16),
            !(v@.len() == 1 && Self::named_of(v@[0] as u16) is Some) ==> r is UnknownValue,
    {
        let w = widen_bytes(v);
        Self::from_vec(w.as_slice())
    }

    /// What `from_vec` gives for the codes `c`, as far as it is fixed.
    pub fn to_string(&self) -> (r: String)
        ensures
            r@ == self.text(),
    {
        match self {
            CFA::Red => String::from_str("Red"),
            CFA::Green => String::from_str("Green"),
            CFA::Blue => String::from_str("Blue"),
            CFA::Cyan => String::from_str("Cyan"),
            CFA::Magenta => String::from_str("Magenta"),
            CFA::Yellow => String::from_str("Yellow"),
            CFA::White => String::from_str("White"),
            CFA::UnknownValue(v) => {
                let mut s = String::from_str("UnknownValue");
                let w = widen_u16s(v.as_slice());
                let t = list_text(w.as_slice());
                s.append(t.as_str());
                s
            }
        }
    }

    /// The value used when nothing is known yet.
    pub fn unknown() -> (r: Self)
        ensures
            r is UnknownValue,
            r.codes() == seq![255u16],
    {
        CFA::UnknownValue(vec![255])
    }

    /// The first raw code.
    pub fn to_u16(&self) -> (r: u16)
        requires
            self.codes().len() > 0,
        ensures
            r == self.codes()[0],
    {
        let v = self.to_vec();
        v[0]
    }

    pub fn from_u16(value: u16) -> (r: Self)
        ensures
            r.codes() == seq![value],
            Self::named_of(value) is Some ==> Some(r) == Self::named_of(value),
            Self::named_of(value) is None ==> r is UnknownValue,
    {
        let v: Vec<u16> = vec![value];
        proof {
            assert(v@ =~= seq![value]);
        }
        Self::from_vec(v.as_slice())
    }

    /// Every named value with its code, and the value itself at the end when it is unknown.
    pub fn all(&self) -> (r: Vec<(u16, Self)>)
        ensures
            r@.len() == (if self is UnknownValue { 8nat } else { 7nat }),
            forall|i: int| 0 <= i < 7 ==> r@[i].0 == Self::listed()[i] && Self::named_of(r@[i].0) == Some(r@[i].1),
            self is UnknownValue ==> r@[7].0 == 255 && r@[7].1 is UnknownValue && r@[7].1.codes() == self.codes(),
    {
        let mut r: Vec<(u16, Self)> = Vec::new();
        r.push((0, CFA::Red));
        r.push((1, CFA::Green));
        r.push((2, CFA::Blue));
        r.push((3, CFA::Cyan));
        r.push((4, CFA::Magenta));
        r.push((5, CFA::Yellow));
        r.push((6, CFA::White));
        if let CFA::UnknownValue(v) = self {
            r.push((255, CFA::UnknownValue(copy_u16s(v.as_slice()))));
        }
        r
    }

    /// Decoding the code of a named value gives that value back.
    pub proof fn lemma_named_round_trip(x: Self)
        requires
            !(x is UnknownValue),
        ensures
            x.codes().len() == 1,
            Self::named_of(x.codes()[0]) == Some(x),
            Self::decodes(x.codes(), x),
    {
    }
}

/// Which side of sea level an altitude is measured from.
#[allow(non_camel_case_types)]
#[derive(Clone, Debug, PartialEq, Eq)]
pub enum GPSAltitudeRef {
    AboveSeaLevel,
    BelowSeaLevel,
    PositiveSeaLevel,
    NegativeSeaLevel,
    UnknownValue(Vec<u16>),
}

impl GPSAltitudeRef {
    /// The named value a single code stands for, if any.
    pub open spec fn named_of(c: u16) -> Option<GPSAltitudeRef> {
        if c == 0 {
            Some(GPSAltitudeRef::AboveSeaLevel)
        } else if c == 1 {
            Some(GPSAltitudeRef::BelowSeaLevel)
        } else if c == 2 {
            Some(GPSAltitudeRef::PositiveSeaLevel)
        } else if c == 3 {
            Some(GPSAltitudeRef::NegativeSeaLevel)
        } else {
            None
        }
    }

    /// `r` is what decoding the raw codes `v` gives: the named value for one known code, an
    /// unknown value holding `v` otherwise.
    pub open spec fn decodes(v: Seq<u16>, r: Self) -> bool {
        &&& r.codes() == v
        &&& v.len() == 1 && Self::named_of(v[0]) is Some ==> Some(r) == Self::named_of(v[0])
        &&& !(v.len() == 1 && Self::named_of(v[0]) is Some) ==> r is UnknownValue
    }

    /// The raw codes of the value.
    pub open spec fn codes(&self) -> Seq<u16> {
        match self {
            GPSAltitudeRef::AboveSeaLevel => seq![0u16],
            GPSAltitudeRef::BelowSeaLevel => seq![1u16],
            GPSAltitudeRef::PositiveSeaLevel => seq![2u16],
            GPSAltitudeRef::NegativeSeaLevel => seq![3u16],
            GPSAltitudeRef::UnknownValue(v) => v@,
        }
    }

    /// The codes of the named values, in listing order.
    pub open spec fn listed() -> Seq<u16> {
        seq![0u16, 1u16, 2u16, 3u16]
    }

    /// Display name of the value.
    pub open spec fn text(&self) -> Seq<char> {
        match self {
            GPSAltitudeRef::AboveSeaLevel => "AboveSeaLevel"@,
            GPSAltitudeRef::BelowSeaLevel => "BelowSeaLevel"@,
            GPSAltitudeRef::PositiveSeaLevel => "PositiveSeaLevel"@,
            GPSAltitudeRef::NegativeSeaLevel => "NegativeSeaLevel"@,
            GPSAltitudeRef::UnknownValue(v) => "UnknownValue"@ + list_dec(v@.map_values(|x: u16| x as int)),
        }
    }

    pub fn to_vec(&self) -> (r: Vec<u16>)
        ensures
            r@ == self.codes(),
    {
        match self {
            GPSAltitudeRef::AboveSeaLevel => vec![0],
            GPSAltitudeRef::BelowSeaLevel => vec![1],
            GPSAltitudeRef::PositiveSeaLevel => vec![2],
            GPSAltitudeRef::NegativeSeaLevel => vec![3],
            GPSAltitudeRef::UnknownValue(v) => copy_u16s(v.as_slice()),
        }
    }

    /// Decodes raw codes; anything but one known code is kept as it is.
    pub fn from_vec(v: &[u16]) -> (r: Self)
        ensures
            r.codes() == v@,
            v@.len() == 1 && Self::named_of(v@[0]) is Some ==> Some(r) == Self::named_of(v@[0]),
            !(v@.len() == 1 && Self::named_of(v@[0]) is Some) ==> r is UnknownValue,
    {
        if v.len() != 1 {
            return GPSAltitudeRef::UnknownValue(copy_u16s(v));
        }
        match v[0] {
            0 => GPSAltitudeRef::AboveSeaLevel,
            1 => GPSAltitudeRef::BelowSeaLevel,
            2 => GPSAltitudeRef::PositiveSeaLevel,
            3 => GPSAltitudeRef::NegativeSeaLevel,
            _ => GPSAltitudeRef::UnknownValue(copy_u16s(v)),
        }
    }

    /// Decodes codes stored one per byte.
    pub fn from_u8_vec(v: &[u8]) -> (r: Self)
        ensures
            r.codes() == v@.map_values(|b: u8| b as u16),
            v@.len() == 1 && Self::named_of(v@[0] as u16) is Some ==> Some(r) == Self::named_of(v@[0] as u16),
            !(v@.len() == 1 && Self::named_of(v@[0] as u16) is Some) ==> r is UnknownValue,
    {
        let w = widen_bytes(v);
        Self::from_vec(w.as_slice())
    }

    /// What `from_vec` gives for the codes `c`, as far as it is fixed.
    pub fn to_string(&self) -> (r: String)
        ensures
            r@ == self.text(),
    {
        match self {
            GPSAltitudeRef::AboveSeaLevel => String::from_str("AboveSeaLevel"),
            GPSAltitudeRef::BelowSeaLevel => String::from_str("BelowSeaLevel"),
            GPSAltitudeRef::PositiveSeaLevel => String::from_str("PositiveSeaLevel"),
            GPSAltitudeRef::NegativeSeaLevel => String::from_str("NegativeSeaLevel"),
            GPSAltitudeRef::UnknownValue(v) => {
                let mut s = String::from_str("UnknownValue");
                let w = widen_u16s(v.as_slice());
                let t = list_text(w.as_slice());
                s.append(t.as_str());
                s
            }
        }
    }

    /// The value used when nothing is known yet.
    pub fn unknown() -> (r: Self)
        ensures
            r is UnknownValue,
            r.codes() == seq![255u16],
    {
        GPSAltitudeRef::UnknownValue(vec![255])
    }

    /// The first raw code.
    pub fn to_u16(&self) -> (r: u16)
        requires
            self.codes().len() > 0,
        ensures
            r == self.codes()[0],
    {
        let v = self.to_vec();
        v[0]
    }

    pub fn from_u16(value: u16) -> (r: Self)
        ensures
            r.codes() == seq![value],
            Self::named_of(value) is Some ==> Some(r) == Self::named_of(value),
            Self::named_of(value) is None ==> r is UnknownValue,
    {
        let v: Vec<u16> = vec![value];
        proof {
            assert(v@ =~= seq![value]);
        }
        Self::from_vec(v.as_slice())
    }

    /// Every named value with its code, and the value itself at the end when it is unknown.
    pub fn all(&self) -> (r: Vec<(u16, Self)>)
        ensures
            r@.len() == (if self is UnknownValue { 5nat } else { 4nat }),
            forall|i: int| 0 <= i < 4 ==> r@[i].0 == Self::listed()[i] && Self::named_of(r@[i].0) == Some(r@[i].1),
            self is UnknownValue ==> r@[4].0 == 255 && r@[4].1 is UnknownValue && r@[4].1.codes() == self.codes(),
    {
        let mut r: Vec<(u16, Self)> = Vec::new();
        r.push((0, GPSAltitudeRef::AboveSeaLevel));
        r.push((1, GPSAltitudeRef::BelowSeaLevel));
        r.push((2, GPSAltitudeRef::PositiveSeaLevel));
        r.push((3, GPSAltitudeRef::NegativeSeaLevel));
        if let GPSAltitudeRef::UnknownValue(v) = self {
            r.push((255, GPSAltitudeRef::UnknownValue(copy_u16s(v.as_slice()))));
        }
        r
    }

    /// Decoding the code of a named value gives that value back.
    pub proof fn lemma_named_round_trip(x: Self)
        requires
            !(x is UnknownValue),
        ensures
            x.codes().len() == 1,
            Self::named_of(x.codes()[0]) == Some(x),
            Self::decodes(x.codes(), x),
    {
    }
}

/// Unit of a speed.
#[allow(non_camel_case_types)]
#[derive(Clone, Copy, Debug, PartialEq, Eq, Structural)]
pub enum GPSSpeedRef {
    km_h,
    mph,
    knots,
}

impl GPSSpeedRef {
    /// The code letters of the value.
    pub open spec fn code(&self) -> Seq<char> {
        match self {
            GPSSpeedRef::km_h => "K"@,
            GPSSpeedRef::mph => "M"@,
            GPSSpeedRef::knots => "N"@,
        }
    }

    /// Position of the value in the listing.
    pub open spec fn ordinal(&self) -> u16 {
        match self {
            GPSSpeedRef::km_h => 0,
            GPSSpeedRef::mph => 1,
            GPSSpeedRef::knots => 2,
        }
    }

    /// The value at a listing position.
    pub open spec fn at(i: int) -> GPSSpeedRef {
        if i == 0 {
            GPSSpeedRef::km_h
        } else if i == 1 {
            GPSSpeedRef::mph
        } else if i == 2 {
            GPSSpeedRef::knots
        } else {
            GPSSpeedRef::km_h
        }
    }

    /// The value that a code text names; unknown codes give the default.
    pub open spec fn decode(s: Seq<char>) -> GPSSpeedRef {
        if s == "K"@ {
            GPSSpeedRef::km_h
        } else if s == "M"@ {
            GPSSpeedRef::mph
        } else if s == "N"@ {
            GPSSpeedRef::knots
        } else {
            GPSSpeedRef::km_h
        }
    }

    pub open spec fn text(&self) -> Seq<char> {
        match self {
            GPSSpeedRef::km_h => "km_h"@,
            GPSSpeedRef::mph => "mph"@,
            GPSSpeedRef::knots => "knots"@,
        }
    }

    pub fn to_str(&self) -> (r: String)
        ensures
            r@ == self.code(),
    {
        match self {
            GPSSpeedRef::km_h => String::from_str("K"),
            GPSSpeedRef::mph => String::from_str("M"),
            GPSSpeedRef::knots => String::from_str("N"),
        }
    }

    /// Decodes a code text; anything unrecognised gives the default value.
    pub fn from_str(s: &str) -> (r: Self)
        ensures
            r == Self::decode(s@),
    {
        if str_eq(s, "K") {
            return GPSSpeedRef::km_h;
        }
        if str_eq(s, "M") {
            return GPSSpeedRef::mph;
        }
        if str_eq(s, "N") {
            return GPSSpeedRef::knots;
        }
        GPSSpeedRef::km_h
    }

    pub fn to_string(&self) -> (r: String)
        ensures
            r@ == self.text(),
    {
        match self {
            GPSSpeedRef::km_h => String::from_str("km_h"),
            GPSSpeedRef::mph => String::from_str("mph"),
            GPSSpeedRef::knots => String::from_str("knots"),
        }
    }

    pub fn to_u16(&self) -> (r: u16)
        ensures
            r == self.ordinal(),
    {
        match self {
            GPSSpeedRef::km_h => 0,
            GPSSpeedRef::mph => 1,
            GPSSpeedRef::knots => 2,
        }
    }

    /// The value at a listing position; past the end, the default.
    pub fn from_u16(value: u16) -> (r: Self)
        ensures
            r == Self::at(value as int),
    {
        match value {
            0 => GPSSpeedRef::km_h,
            1 => GPSSpeedRef::mph,
            2 => GPSSpeedRef::knots,
            _ => GPSSpeedRef::km_h,
        }
    }

    /// Every value with its listing position.
    pub fn all(&self) -> (r: Vec<(u16, Self)>)
        ensures
            r@.len() == 3,
            forall|i: int| 0 <= i < 3 ==> r@[i].0 == i && r@[i].1 == Self::at(i),
    {
        let mut r: Vec<(u16, Self)> = Vec::new();
        r.push((0, GPSSpeedRef::km_h));
        r.push((1, GPSSpeedRef::mph));
        r.push((2, GPSSpeedRef::knots));
        r
    }

    /// Decoding the code of a value gives that value back.
    pub proof fn lemma_round_trip(x: Self)
        ensures
            Self::decode(x.code()) == x,
            Self::at(x.ordinal() as int) == x,
    {
        reveal_strlit("K");
        reveal_strlit("M");
        reveal_strlit("N");
        assert("K"@[0] != "M"@[0]);
        assert("K"@[0] != "N"@[0]);
        assert("M"@[0] != "N"@[0]);
    }
}

impl Default for GPSSpeedRef {
    fn default() -> (r: Self)
        ensures
            r == GPSSpeedRef::km_h,
    {
        GPSSpeedRef::km_h
    }
}

/// Rule set the file claims to follow.
#[allow(non_camel_case_types)]
#[derive(Clone, Copy, Debug, PartialEq, Eq, Structural)]
pub enum InteroperabilityIndex {
    R03_DCFOptionFile_AdobeRGB,
    R98_DCFBasicFile_sRGB,
    THM_DCFThunmnailFile,
}

impl InteroperabilityIndex {
    /// The code letters of the value.
    pub open spec fn code(&self) -> Seq<char> {
        match self {
            InteroperabilityIndex::R03_DCFOptionFile_AdobeRGB => "R03"@,
            InteroperabilityIndex::R98_DCFBasicFile_sRGB => "R98"@,
            InteroperabilityIndex::THM_DCFThunmnailFile => "THM"@,
        }
    }

    /// Position of the value in the listing.
    pub open spec fn ordinal(&self) -> u16 {
        match self {
            InteroperabilityIndex::R03_DCFOptionFile_AdobeRGB => 0,
            InteroperabilityIndex::R98_DCFBasicFile_sRGB => 1,
            InteroperabilityIndex::THM_DCFThunmnailFile => 2,
        }
    }

    /// The value at a listing position.
    pub open spec fn at(i: int) -> InteroperabilityIndex {
        if i == 0 {
            InteroperabilityIndex::R03_DCFOptionFile_AdobeRGB
        } else if i == 1 {
            InteroperabilityIndex::R98_DCFBasicFile_sRGB
        } else if i == 2 {
            InteroperabilityIndex::THM_DCFThunmnailFile
        } else {
            InteroperabilityIndex::R03_DCFOptionFile_AdobeRGB
        }
    }

    /// The value that a code text names; unknown codes give the default.
    pub open spec fn decode(s: Seq<char>) -> InteroperabilityIndex {
        if s == "R03"@ {
            InteroperabilityIndex::R03_DCFOptionFile_AdobeRGB
        } else if s == "R98"@ {
            InteroperabilityIndex::R98_DCFBasicFile_sRGB
        } else if s == "THM"@ {
            InteroperabilityIndex::THM_DCFThunmnailFile
        } else {
            InteroperabilityIndex::R03_DCFOptionFile_AdobeRGB
        }
    }

    pub open spec fn text(&self) -> Seq<char> {
        match self {
            InteroperabilityIndex::R03_DCFOptionFile_AdobeRGB => "R03_DCFOptionFile_AdobeRGB"@,
            InteroperabilityIndex::R98_DCFBasicFile_sRGB => "R98_DCFBasicFile_sRGB"@,
            InteroperabilityIndex::THM_DCFThunmnailFile => "THM_DCFThunmnailFile"@,
        }
    }

    pub fn to_str(&self) -> (r: String)
        ensures
            r@ == self.code(),
    {
        match self {
            InteroperabilityIndex::R03_DCFOptionFile_AdobeRGB => String::from_str("R03"),
            InteroperabilityIndex::R98_DCFBasicFile_sRGB => String::from_str("R98"),
            InteroperabilityIndex::THM_DCFThunmnailFile => String::from_str("THM"),
        }
    }

    /// Decodes a code text; anything unrecognised gives the default value.
    pub fn from_str(s: &str) -> (r: Self)
        ensures
            r == Self::decode(s@),
    {
        if str_eq(s, "R03") {
            return InteroperabilityIndex::R03_DCFOptionFile_AdobeRGB;
        }
        if str_eq(s, "R98") {
            return InteroperabilityIndex::R98_DCFBasicFile_sRGB;
        }
        if str_eq(s, "THM") {
            return InteroperabilityIndex::THM_DCFThunmnailFile;
        }
        InteroperabilityIndex::R03_DCFOptionFile_AdobeRGB
    }

    pub fn to_string(&self) -> (r: String)
        ensures
            r@ == self.text(),
    {
        match self {
            InteroperabilityIndex::R03_DCFOptionFile_AdobeRGB => String::from_str("R03_DCFOptionFile_AdobeRGB"),
            InteroperabilityIndex::R98_DCFBasicFile_sRGB => String::from_str("R98_DCFBasicFile_sRGB"),
            InteroperabilityIndex::THM_DCFThunmnailFile => String::from_str("THM_DCFThunmnailFile"),
        }
    }

    pub fn to_u16(&self) -> (r: u16)
        ensures
            r == self.ordinal(),
    {
        match self {
            InteroperabilityIndex::R03_DCFOptionFile_AdobeRGB => 0,
            InteroperabilityIndex::R98_DCFBasicFile_sRGB => 1,
            InteroperabilityIndex::THM_DCFThunmnailFile => 2,
        }
    }

    /// The value at a listing position; past the end, the default.
    pub fn from_u16(value: u16) -> (r: Self)
        ensures
            r == Self::at(value as int),
    {
        match value {
            0 => InteroperabilityIndex::R03_DCFOptionFile_AdobeRGB,
            1 => InteroperabilityIndex::R98_DCFBasicFile_sRGB,
            2 => InteroperabilityIndex::THM_DCFThunmnailFile,
            _ => InteroperabilityIndex::R03_DCFOptionFile_AdobeRGB,
        }
    }

    /// Every value with its listing position.
    pub fn all(&self) -> (r: Vec<(u16, Self)>)
        ensures
            r@.len() == 3,
            forall|i: int| 0 <= i < 3 ==> r@[i].0 == i && r@[i].1 == Self::at(i),
    {
        let mut r: Vec<(u16, Self)> = Vec::new();
        r.push((0, InteroperabilityIndex::R03_DCFOptionFile_AdobeRGB));
        r.push((1, InteroperabilityIndex::R98_DCFBasicFile_sRGB));
        r.push((2, InteroperabilityIndex::THM_DCFThunmnailFile));
        r
    }

    /// Decoding the code of a value gives that value back.
    pub proof fn lemma_round_trip(x: Self)
        ensures
            Self::decode(x.code()) == x,
            Self::at(x.ordinal() as int) == x,
    {
        reveal_strlit("R03");
        reveal_strlit("R98");
        reveal_strlit("THM");
        assert("R03"@[1] != "R98"@[1]);
        assert("R03"@[0] != "THM"@[0]);
        assert("R98"@[0] != "THM"@[0]);
    }
}

impl Default for InteroperabilityIndex {
    fn default() -> (r: Self)
        ensures
            r == InteroperabilityIndex::R03_DCFOptionFile_AdobeRGB,
    {
        InteroperabilityIndex::R03_DCFOptionFile_AdobeRGB
    }
}

/// How the two chroma channels are subsampled, as a horizontal and a vertical factor.
#[allow(non_camel_case_types)]
#[derive(Clone, Debug, PartialEq, Eq)]
pub enum YCbCrSubSampling {
    YCbCr444_11,
    YCbCr440_12,
    YCbCr441_14,
    YCbCr422_21,
    YCbCr420_22,
    YCbCr421_24,
    YCbCr411_41,
    YCbCr410_42,
    Unknown(Vec<u16>),
}

impl YCbCrSubSampling {
    /// The named value a pair of factors stands for, if any.
    pub open spec fn named_of(a: u16, b: u16) -> Option<YCbCrSubSampling> {
        if a == 1 && b == 1 {
            Some(YCbCrSubSampling::YCbCr444_11)
        } else if a == 1 && b == 2 {
            Some(YCbCrSubSampling::YCbCr440_12)
        } else if a == 1 && b == 4 {
            Some(YCbCrSubSampling::YCbCr441_14)
        } else if a == 2 && b == 1 {
            Some(YCbCrSubSampling::YCbCr422_21)
        } else if a == 2 && b == 2 {
            Some(YCbCrSubSampling::YCbCr420_22)
        } else if a == 2 && b == 4 {
            Some(YCbCrSubSampling::YCbCr421_24)
        } else if a == 4 && b == 1 {
            Some(YCbCrSubSampling::YCbCr411_41)
        } else if a == 4 && b == 2 {
            Some(YCbCrSubSampling::YCbCr410_42)
        } else {
            None
        }
    }

    /// `r` is what decoding the raw factors `v` gives.
    pub open spec fn decodes(v: Seq<u16>, r: Self) -> bool {
        &&& r.codes() == v
        &&& v.len() == 2 && Self::named_of(v[0], v[1]) is Some ==> Some(r) == Self::named_of(v[0], v[1])
        &&& !(v.len() == 2 && Self::named_of(v[0], v[1]) is Some) ==> r is Unknown
    }

    /// The raw factors of the value.
    pub open spec fn codes(&self) -> Seq<u16> {
        match self {
            YCbCrSubSampling::YCbCr444_11 => seq![1u16, 1u16],
            YCbCrSubSampling::YCbCr440_12 => seq![1u16, 2u16],
            YCbCrSubSampling::YCbCr441_14 => seq![1u16, 4u16],
            YCbCrSubSampling::YCbCr422_21 => seq![2u16, 1u16],
            YCbCrSubSampling::YCbCr420_22 => seq![2u16, 2u16],
            YCbCrSubSampling::YCbCr421_24 => seq![2u16, 4u16],
            YCbCrSubSampling::YCbCr411_41 => seq![4u16, 1u16],
            YCbCrSubSampling::YCbCr410_42 => seq![4u16, 2u16],
            YCbCrSubSampling::Unknown(v) => v@,
        }
    }

    /// Position of the value in the listing; unknown values come last.
    pub open spec fn ordinal(&self) -> u16 {
        match self {
            YCbCrSubSampling::YCbCr444_11 => 0,
            YCbCrSubSampling::YCbCr440_12 => 1,
            YCbCrSubSampling::YCbCr441_14 => 2,
            YCbCrSubSampling::YCbCr422_21 => 3,
            YCbCrSubSampling::YCbCr420_22 => 4,
            YCbCrSubSampling::YCbCr421_24 => 5,
            YCbCrSubSampling::YCbCr411_41 => 6,
            YCbCrSubSampling::YCbCr410_42 => 7,
            YCbCrSubSampling::Unknown(_) => 8,
        }
    }

    /// The named value at a listing position.
    pub open spec fn at(i: int) -> Option<YCbCrSubSampling> {
        if i == 0 {
            Some(YCbCrSubSampling::YCbCr444_11)
        } else if i == 1 {
            Some(YCbCrSubSampling::YCbCr440_12)
        } else if i == 2 {
            Some(YCbCrSubSampling::YCbCr441_14)
        } else if i == 3 {
            Some(YCbCrSubSampling::YCbCr422_21)
        } else if i == 4 {
            Some(YCbCrSubSampling::YCbCr420_22)
        } else if i == 5 {
            Some(YCbCrSubSampling::YCbCr421_24)
        } else if i == 6 {
            Some(YCbCrSubSampling::YCbCr411_41)
        } else if i == 7 {
            Some(YCbCrSubSampling::YCbCr410_42)
        } else {
            None
        }
    }

    pub open spec fn text(&self) -> Seq<char> {
        match self {
            YCbCrSubSampling::YCbCr444_11 => "YCbCr4:4:4 (1 1)"@,
            YCbCrSubSampling::YCbCr440_12 => "YCbCr4:4:0 (1 2)"@,
            YCbCrSubSampling::YCbCr441_14 => "YCbCr4:4:1 (1 4)"@,
            YCbCrSubSampling::YCbCr422_21 => "YCbCr4:2:2 (2 1)"@,
            YCbCrSubSampling::YCbCr420_22 => "YCbCr4:2:0 (2 2)"@,
            YCbCrSubSampling::YCbCr421_24 => "YCbCr4:2:1 (2 4)"@,
            YCbCrSubSampling::YCbCr411_41 => "YCbCr4:1:1 (4 1)"@,
            YCbCrSubSampling::YCbCr410_42 => "YCbCr4:1:0 (4 2)"@,
            YCbCrSubSampling::Unknown(v) => "Unknown("@ + list_dec(v@.map_values(|x: u16| x as int)) + ")"@,
        }
    }

    pub fn to_vec(&self) -> (r: Vec<u16>)
        ensures
            r@ == self.codes(),
    {
        match self {
            YCbCrSubSampling::YCbCr444_11 => vec![1, 1],
            YCbCrSubSampling::YCbCr440_12 => vec![1, 2],
            YCbCrSubSampling::YCbCr441_14 => vec![1, 4],
            YCbCrSubSampling::YCbCr422_21 => vec![2, 1],
            YCbCrSubSampling::YCbCr420_22 => vec![2, 2],
            YCbCrSubSampling::YCbCr421_24 => vec![2, 4],
            YCbCrSubSampling::YCbCr411_41 => vec![4, 1],
            YCbCrSubSampling::YCbCr410_42 => vec![4, 2],
            YCbCrSubSampling::Unknown(v) => copy_u16s(v.as_slice()),
        }
    }

    /// Decodes a pair of factors; anything else is kept as it is.
    pub fn from_vec(v: &[u16]) -> (r: Self)
        ensures
            r.codes() == v@,
            v@.len() == 2 && Self::named_of(v@[0], v@[1]) is Some ==> Some(r) == Self::named_of(v@[0], v@[1]),
            !(v@.len() == 2 && Self::named_of(v@[0], v@[1]) is Some) ==> r is Unknown,
    {
        if v.len() != 2 {
            return YCbCrSubSampling::Unknown(copy_u16s(v));
        }
        match (v[0], v[1]) {
            (1, 1) => YCbCrSubSampling::YCbCr444_11,
            (1, 2) => YCbCrSubSampling::YCbCr440_12,
            (1, 4) => YCbCrSubSampling::YCbCr441_14,
            (2, 1) => YCbCrSubSampling::YCbCr422_21,
            (2, 2) => YCbCrSubSampling::YCbCr420_22,
            (2, 4) => YCbCrSubSampling::YCbCr421_24,
            (4, 1) => YCbCrSubSampling::YCbCr411_41,
            (4, 2) => YCbCrSubSampling::YCbCr410_42,
            _ => YCbCrSubSampling::Unknown(copy_u16s(v)),
        }
    }

    pub fn to_string(&self) -> (r: String)
        ensures
            r@ == self.text(),
    {
        match self {
            YCbCrSubSampling::YCbCr444_11 => String::from_str("YCbCr4:4:4 (1 1)"),
            YCbCrSubSampling::YCbCr440_12 => String::from_str("YCbCr4:4:0 (1 2)"),
            YCbCrSubSampling::YCbCr441_14 => String::from_str("YCbCr4:4:1 (1 4)"),
            YCbCrSubSampling::YCbCr422_21 => String::from_str("YCbCr4:2:2 (2 1)"),
            YCbCrSubSampling::YCbCr420_22 => String::from_str("YCbCr4:2:0 (2 2)"),
            YCbCrSubSampling::YCbCr421_24 => String::from_str("YCbCr4:2:1 (2 4)"),
            YCbCrSubSampling::YCbCr411_41 => String::from_str("YCbCr4:1:1 (4 1)"),
            YCbCrSubSampling::YCbCr410_42 => String::from_str("YCbCr4:1:0 (4 2)"),
            YCbCrSubSampling::Unknown(v) => {
                let mut s = String::from_str("Unknown(");
                let w = widen_u16s(v.as_slice());
                let t = list_text(w.as_slice());
                s.append(t.as_str());
                s.append(")");
                s
            },
        }
    }

    /// The value used when nothing is known yet.
    pub fn unknown() -> (r: Self)
        ensures
            r is Unknown,
            r.codes() == seq![0u16, 0u16],
    {
        YCbCrSubSampling::Unknown(vec![0, 0])
    }

    pub fn to_u16(&self) -> (r: u16)
        ensures
            r == self.ordinal(),
    {
        match self {
            YCbCrSubSampling::YCbCr444_11 => 0,
            YCbCrSubSampling::YCbCr440_12 => 1,
            YCbCrSubSampling::YCbCr441_14 => 2,
            YCbCrSubSampling::YCbCr422_21 => 3,
            YCbCrSubSampling::YCbCr420_22 => 4,
            YCbCrSubSampling::YCbCr421_24 => 5,
            YCbCrSubSampling::YCbCr411_41 => 6,
            YCbCrSubSampling::YCbCr410_42 => 7,
            YCbCrSubSampling::Unknown(_) => 8,
        }
    }

    /// The named value at a listing position; past the end, an unknown value holding the position.
    pub fn from_u16(value: u16) -> (r: Self)
        ensures
            Self::at(value as int) is Some ==> Some(r) == Self::at(value as int),
            Self::at(value as int) is None ==> r is Unknown && r.codes() == seq![value],
    {
        match value {
            0 => YCbCrSubSampling::YCbCr444_11,
            1 => YCbCrSubSampling::YCbCr440_12,
            2 => YCbCrSubSampling::YCbCr441_14,
            3 => YCbCrSubSampling::YCbCr422_21,
            4 => YCbCrSubSampling::YCbCr420_22,
            5 => YCbCrSubSampling::YCbCr421_24,
            6 => YCbCrSubSampling::YCbCr411_41,
            7 => YCbCrSubSampling::YCbCr410_42,
            _ => {
                let v: Vec<u16> = vec![value];
                proof {
                    assert(v@ =~= seq![value]);
                }
                YCbCrSubSampling::Unknown(v)
            },
        }
    }

    /// Every named value with its position, and the value itself at the end when it is unknown.
    pub fn all(&self) -> (r: Vec<(u16, Self)>)
        ensures
            r@.len() == (if self is Unknown { 9nat } else { 8nat }),
            forall|i: int| 0 <= i < 8 ==> r@[i].0 == i && Some(r@[i].1) == Self::at(i),
            self is Unknown ==> r@[8].0 == 8 && r@[8].1 is Unknown && r@[8].1.codes() == self.codes(),
    {
        let mut r: Vec<(u16, Self)> = Vec::new();
        r.push((0, YCbCrSubSampling::YCbCr444_11));
        r.push((1, YCbCrSubSampling::YCbCr440_12));
        r.push((2, YCbCrSubSampling::YCbCr441_14));
        r.push((3, YCbCrSubSampling::YCbCr422_21));
        r.push((4, YCbCrSubSampling::YCbCr420_22));
        r.push((5, YCbCrSubSampling::YCbCr421_24));
        r.push((6, YCbCrSubSampling::YCbCr411_41));
        r.push((7, YCbCrSubSampling::YCbCr410_42));
        if let YCbCrSubSampling::Unknown(v) = self {
            r.push((8, YCbCrSubSampling::Unknown(copy_u16s(v.as_slice()))));
        }
        r
    }

    /// Decoding the factors of a named value gives that value back.
    pub proof fn lemma_named_round_trip(x: Self)
        requires
            !(x is Unknown),
        ensures
            x.codes().len() == 2,
            Self::named_of(x.codes()[0], x.codes()[1]) == Some(x),
            Self::decodes(x.codes(), x),
    {
    }
}

/// Kind of device the image came from.
#[allow(non_camel_case_types)]
#[derive(Clone, Debug, PartialEq, Eq)]
pub enum FileSource {
    FilmScanner,
    ReflectionPrintScanner,
    DigitalCamera,
    SigmaDigitalCamera,
    UnknownValue(Vec<u16>),
}

impl FileSource {
    /// The codes one camera maker writes in place of a single code.
    pub open spec fn sigma_codes() -> Seq<u16> {
        seq![3u16, 0u16, 0u16, 0u16]
    }

    /// The named value that a list of codes stands for, if any.
    pub open spec fn named_of(v: Seq<u16>) -> Option<FileSource> {
        if v.len() == 1 && v[0] == 1 {
            Some(FileSource::FilmScanner)
        } else if v.len() == 1 && v[0] == 2 {
            Some(FileSource::ReflectionPrintScanner)
        } else if v.len() == 1 && v[0] == 3 {
            Some(FileSource::DigitalCamera)
        } else if v == Self::sigma_codes() {
            Some(FileSource::SigmaDigitalCamera)
        } else {
            None
        }
    }

    /// `r` is what decoding the raw codes `v` gives.
    pub open spec fn decodes(v: Seq<u16>, r: Self) -> bool {
        &&& r.codes() == v
        &&& Self::named_of(v) is Some ==> Some(r) == Self::named_of(v)
        &&& Self::named_of(v) is None ==> r is UnknownValue
    }

    pub open spec fn codes(&self) -> Seq<u16> {
        match self {
            FileSource::FilmScanner => seq![1u16],
            FileSource::ReflectionPrintScanner => seq![2u16],
            FileSource::DigitalCamera => seq![3u16],
            FileSource::SigmaDigitalCamera => Self::sigma_codes(),
            FileSource::UnknownValue(v) => v@,
        }
    }

    pub open spec fn text(&self) -> Seq<char> {
        match self {
            FileSource::FilmScanner => "FilmScanner"@,
            FileSource::ReflectionPrintScanner => "ReflectionPrintScanner"@,
            FileSource::DigitalCamera => "DigitalCamera"@,
            FileSource::SigmaDigitalCamera => "SigmaDigitalCamera"@,
            FileSource::UnknownValue(v) => "UnknownValue"@ + list_dec(v@.map_values(|x: u16| x as int)),
        }
    }

    pub fn to_vec(&self) -> (r: Vec<u16>)
        ensures
            r@ == self.codes(),
    {
        match self {
            FileSource::FilmScanner => vec![1],
            FileSource::ReflectionPrintScanner => vec![2],
            FileSource::DigitalCamera => vec![3],
            FileSource::SigmaDigitalCamera => {
                let v: Vec<u16> = vec![3, 0, 0, 0];
                proof {
                    assert(v@ =~= Self::sigma_codes());
                }
                v
            },
            FileSource::UnknownValue(v) => copy_u16s(v.as_slice()),
        }
    }

    /// Decodes raw codes; anything unrecognised is kept as it is.
    pub fn from_vec(v: &[u16]) -> (r: Self)
        ensures
            r.codes() == v@,
            Self::named_of(v@) is Some ==> Some(r) == Self::named_of(v@),
            Self::named_of(v@) is None ==> r is UnknownValue,
    {
        if v.len() != 1 {
            if v.len() == 4 && v[0] == 3 && v[1] == 0 && v[2] == 0 && v[3] == 0 {
                assert(v@ =~= Self::sigma_codes());
                FileSource::SigmaDigitalCamera
            } else {
                proof {
                    if v@ == Self::sigma_codes() {
                        assert(v@[0] == 3 && v@[1] == 0 && v@[2] == 0 && v@[3] == 0);
                    }
                }
                FileSource::UnknownValue(copy_u16s(v))
            }
        } else {
            match v[0] {
                1 => FileSource::FilmScanner,
                2 => FileSource::ReflectionPrintScanner,
                3 => FileSource::DigitalCamera,
                _ => FileSource::UnknownValue(copy_u16s(v)),
            }
        }
    }

    /// Decodes codes stored one per byte.
    pub fn from_u8_vec(v: &[u8]) -> (r: Self)
        ensures
            r.codes() == v@.map_values(|b: u8| b as u16),
            Self::named_of(v@.map_values(|b: u8| b as u16)) is Some ==> Some(r) == Self::named_of(
                v@.map_values(|b: u8| b as u16),
            ),
            Self::named_of(v@.map_values(|b: u8| b as u16)) is None ==> r is UnknownValue,
    {
        let w = widen_bytes(v);
        Self::from_vec(w.as_slice())
    }

    pub fn to_string(&self) -> (r: String)
        ensures
            r@ == self.text(),
    {
        match self {
            FileSource::FilmScanner => String::from_str("FilmScanner"),
            FileSource::ReflectionPrintScanner => String::from_str("ReflectionPrintScanner"),
            FileSource::DigitalCamera => String::from_str("DigitalCamera"),
            FileSource::SigmaDigitalCamera => String::from_str("SigmaDigitalCamera"),
            FileSource::UnknownValue(v) => {
                let mut s = String::from_str("UnknownValue");
                let w = widen_u16s(v.as_slice());
                let t = list_text(w.as_slice());
                s.append(t.as_str());
                s
            },
        }
    }

    /// The value used when nothing is known yet.
    pub fn unknown() -> (r: Self)
        ensures
            r is UnknownValue,
            r.codes() == seq![0u16],
    {
        FileSource::UnknownValue(vec![0])
    }

    /// Position of the value in the listing: the named values from one, the unknown value last.
    pub open spec fn ordinal(&self) -> u16 {
        match self {
            FileSource::FilmScanner => 1,
            FileSource::ReflectionPrintScanner => 2,
            FileSource::DigitalCamera => 3,
            FileSource::SigmaDigitalCamera => 4,
            FileSource::UnknownValue(_) => 5,
        }
    }

    /// The named value at a listing position.
    pub open spec fn at(i: int) -> Option<FileSource> {
        if i == 1 {
            Some(FileSource::FilmScanner)
        } else if i == 2 {
            Some(FileSource::ReflectionPrintScanner)
        } else if i == 3 {
            Some(FileSource::DigitalCamera)
        } else if i == 4 {
            Some(FileSource::SigmaDigitalCamera)
        } else {
            None
        }
    }

    pub fn to_u16(&self) -> (r: u16)
        ensures
            r == self.ordinal(),
    {
        match self {
            FileSource::FilmScanner => 1,
            FileSource::ReflectionPrintScanner => 2,
            FileSource::DigitalCamera => 3,
            FileSource::SigmaDigitalCamera => 4,
            FileSource::UnknownValue(_) => 5,
        }
    }

    /// The named value at a listing position; elsewhere, an unknown value holding the position.
    pub fn from_u16(value: u16) -> (r: Self)
        ensures
            Self::at(value as int) is Some ==> Some(r) == Self::at(value as int),
            Self::at(value as int) is None ==> r is UnknownValue && r.codes() == seq![value],
    {
        match value {
            1 => FileSource::FilmScanner,
            2 => FileSource::ReflectionPrintScanner,
            3 => FileSource::DigitalCamera,
            4 => FileSource::SigmaDigitalCamera,
            _ => {
                let v: Vec<u16> = vec![value];
                proof {
                    assert(v@ =~= seq![value]);
                }
                FileSource::UnknownValue(v)
            },
        }
    }

    /// Every named value with its position, and the value itself last when it is unknown.
    pub fn all(&self) -> (r: Vec<(u16, Self)>)
        ensures
            r@.len() == (if self is UnknownValue { 5nat } else { 4nat }),
            forall|i: int| 0 <= i < 4 ==> r@[i].0 == i + 1 && Some(r@[i].1) == Self::at(i + 1),
            self is UnknownValue ==> r@[4].0 == 5 && r@[4].1 is UnknownValue && r@[4].1.codes() == self.codes(),
    {
        let mut r: Vec<(u16, Self)> = Vec::new();
        r.push((1, FileSource::FilmScanner));
        r.push((2, FileSource::ReflectionPrintScanner));
        r.push((3, FileSource::DigitalCamera));
        r.push((4, FileSource::SigmaDigitalCamera));
        if let FileSource::UnknownValue(v) = self {
            r.push((5, FileSource::UnknownValue(copy_u16s(v.as_slice()))));
        }
        r
    }

    /// Decoding the codes of a named value gives that value back.
    pub proof fn lemma_named_round_trip(x: Self)
        requires
            !(x is UnknownValue),
        ensures
            Self::named_of(x.codes()) == Some(x),
            Self::decodes(x.codes(), x),
    {
    }
}

} // verus!
