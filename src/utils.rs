//! Small readers of first values, version tags and coordinates.
use vstd::prelude::*;
use vstd::string::StringExecFns;
use vstd::string::StringSliceAdditionalSpecFns;
use vstd::utf8::{valid_utf8, decode_utf8};
use crate::rational::{uR64, iR64, F64};

verus! {

/// The text as an owned value.
pub fn some_string(s: &str) -> (r: Option<String>)
    ensures
        r matches Some(t) && t@ == s@,
{
    Some(String::from_str(s))
}

/// The first value, if there is one.
pub fn pick_v0<T: Copy>(v: &[T]) -> (r: Option<T>)
    ensures
        v@.len() == 0 ==> r is None,
        v@.len() > 0 ==> r == Some(v@[0]),
{
    if v.len() < 1 {
        None
    } else {
        Some(v[0])
    }
}

/// The first value narrowed to 16 bits, if there is one and it fits.
pub fn pick_v0_cast(v: &[u32]) -> (r: Option<u16>)
    ensures
        r is Some <==> v@.len() > 0 && v@[0] <= u16::MAX,
        r matches Some(x) ==> x == v@[0],
{
    if v.len() < 1 || v[0] > u16::MAX as u32 {
        None
    } else {
        Some(v[0] as u16)
    }
}

/// The first unsigned rational as a decimal, if there is one.
pub fn pick_v0_ur64(v: &[uR64]) -> (r: Option<F64>)
    ensures
        v@.len() == 0 ==> r is None,
        v@.len() > 0 ==> r == Some(F64::from_ur64_spec(v@[0])),
{
    if v.len() < 1 {
        None
    } else {
        Some(F64::from_ur64(&v[0]))
    }
}

/// The first signed rational as a decimal, if there is one.
pub fn pick_v0_ir64(v: &[iR64]) -> (r: Option<F64>)
    ensures
        v@.len() == 0 ==> r is None,
        v@.len() > 0 ==> r == Some(F64::from_ir64_spec(v@[0])),
{
    if v.len() < 1 {
        None
    } else {
        Some(F64::from_ir64(&v[0]))
    }
}

/// Every unsigned rational as a decimal.
pub fn vec_ur64_to_f64(v: &[uR64]) -> (r: Vec<F64>)
    ensures
        r@.len() == v@.len(),
        forall|i: int| 0 <= i < v@.len() ==> #[trigger] r@[i] == F64::from_ur64_spec(v@[i]),
{
    let mut r: Vec<F64> = Vec::new();
    let mut i: usize = 0;
    while i < v.len()
        invariant
            0 <= i <= v@.len(),
            r@.len() == i,
            forall|j: int| 0 <= j < i ==> #[trigger] r@[j] == F64::from_ur64_spec(v@[j]),
        decreases v@.len() - i,
    {
        r.push(F64::from_ur64(&v[i]));
        i = i + 1;
    }
    r
}

/// A version tag stored as ASCII digits (`0232`).
pub trait VersionAscii {
    /// The digits as text, when they are valid UTF-8.
    fn to_string(&self) -> Option<String>;

    /// Replaces the bytes by those of `s`.
    fn from_string(&mut self, s: &str);
}

impl VersionAscii for Vec<u8> {
    fn to_string(&self) -> (r: Option<String>)
        ensures
            r is Some <==> valid_utf8(self@),
            r matches Some(t) ==> t@ == decode_utf8(self@),
    {
        crate::user::utf8_text(self.as_slice())
    }

    fn from_string(&mut self, s: &str)
        ensures
            final(self)@ == s.spec_bytes(),
    {
        let b = s.as_bytes();
        let mut r: Vec<u8> = Vec::new();
        let mut i: usize = 0;
        while i < b.len()
            invariant
                0 <= i <= b@.len(),
                r@ == b@.take(i as int),
            decreases b@.len() - i,
        {
            r.push(b[i]);
            i = i + 1;
            assert(r@ =~= b@.take(i as int));
        }
        assert(b@.take(b@.len() as int) =~= b@);
        *self = r;
    }
}

/// An angle as three unsigned rationals: degrees, minutes and seconds.
#[derive(Clone, Copy, Debug, PartialEq, Eq, Structural)]
pub struct Coordinate {
    pub degree: uR64,
    pub minute: uR64,
    pub second: uR64,
}

impl Coordinate {
    pub fn new(degree: uR64, minute: uR64, second: uR64) -> (r: Self)
        ensures
            r == (Coordinate { degree, minute, second }),
    {
        Coordinate { degree, minute, second }
    }

    /// Exactly three rationals make a coordinate.
    pub fn from_vec(v: &[uR64]) -> (r: Result<Self, ()>)
        ensures
            r is Ok <==> v@.len() == 3,
            r matches Ok(c) ==> c.degree == v@[0] && c.minute == v@[1] && c.second == v@[2],
    {
        if v.len() != 3 {
            return Err(());
        }
        Ok(Coordinate { degree: v[0], minute: v[1], second: v[2] })
    }
}

} // verus!
