//! Geographic coordinates in degrees, minutes and seconds.
use vstd::prelude::*;
use crate::rational::{uR64, F64};
use crate::text::str_eq;

verus! {

/// Whether a hemisphere reference names the positive side (north or east).
pub fn gps_ref(s: &str) -> (r: Option<bool>)
    ensures
        r == Some(s@ == "N"@ || s@ == "E"@),
{
    Some(str_eq(s, "N") || str_eq(s, "E"))
}

/// A rational's denominator as it is read: zero counts as one.
pub open spec fn den_of(u: uR64) -> nat {
    if u.denominator == 0 {
        1
    } else {
        u.denominator as nat
    }
}

/// An angle in degrees, minutes and seconds, without sign; the hemisphere is kept elsewhere.
#[derive(Clone, Copy, Debug, PartialEq)]
pub struct DMS {
    pub degree: u8,
    pub minute: u8,
    pub second: F64,
}

impl DMS {
    pub open spec fn wf(&self) -> bool {
        &&& self.degree <= 180
        &&& self.minute < 60
        &&& self.second.denominator > 0
        &&& 0 <= self.second.numerator <= u32::MAX
    }

    /// Three rationals with a degree of at most 180 and a minute below 60.
    pub open spec fn readable(v: Seq<uR64>) -> bool {
        v.len() == 3 && v[0].nominator <= 180 * den_of(v[0]) && v[1].nominator < 60 * den_of(v[1])
    }

    /// `d` is what reading `v` gives: whole degrees, whole minutes, and the seconds as they are.
    pub open spec fn decodes(v: Seq<uR64>, d: DMS) -> bool {
        &&& d.wf()
        &&& d.degree == v[0].nominator as nat / den_of(v[0])
        &&& d.minute == v[1].nominator as nat / den_of(v[1])
        &&& d.second == F64::from_ur64_spec(v[2])
    }

    /// Reads three rationals; a degree past 180 or a minute of 60 or more gives nothing.
    /// Degree and minute keep their whole part.
    pub fn from_vec(v: &[uR64]) -> (r: Option<Self>)
        ensures
            r is Some <==> Self::readable(v@),
            r matches Some(d) ==> Self::decodes(v@, d),
    {
        if v.len() != 3 {
            return None;
        }
        let d0: u64 = if v[0].denominator == 0 { 1 } else { v[0].denominator as u64 };
        let d1: u64 = if v[1].denominator == 0 { 1 } else { v[1].denominator as u64 };
        if v[0].nominator as u64 > 180 * d0 {
            return None;
        }
        if v[1].nominator as u64 >= 60 * d1 {
            return None;
        }
        let degree: u64 = v[0].nominator as u64 / d0;
        let minute: u64 = v[1].nominator as u64 / d1;
        assert(degree <= 180) by (nonlinear_arith)
            requires degree == v@[0].nominator as u64 / d0, v@[0].nominator <= 180 * d0, d0 >= 1;
        assert(minute < 60) by (nonlinear_arith)
            requires minute == v@[1].nominator as u64 / d1, v@[1].nominator < 60 * d1, d1 >= 1;
        let second = F64::from_ur64(&v[2]);
        Some(DMS { degree: degree as u8, minute: minute as u8, second })
    }

    /// The three rationals: whole degrees, whole minutes, and the seconds over their own
    /// denominator.
    pub fn to_vec(&self) -> (r: Vec<uR64>)
        requires
            self.wf(),
        ensures
            r@ == seq![
                uR64 { nominator: self.degree as u32, denominator: 1 },
                uR64 { nominator: self.minute as u32, denominator: 1 },
                uR64 { nominator: self.second.numerator as u32, denominator: self.second.denominator },
            ],
    {
        let mut r: Vec<uR64> = Vec::new();
        r.push(uR64 { nominator: self.degree as u32, denominator: 1 });
        r.push(uR64 { nominator: self.minute as u32, denominator: 1 });
        r.push(uR64 { nominator: self.second.numerator as u32, denominator: self.second.denominator });
        assert(r@ =~= seq![
            uR64 { nominator: self.degree as u32, denominator: 1 },
            uR64 { nominator: self.minute as u32, denominator: 1 },
            uR64 { nominator: self.second.numerator as u32, denominator: self.second.denominator },
        ]);
        r
    }

    /// The angle as one fraction in degrees.
    pub open spec fn fraction(&self) -> (nat, nat) {
        (
            (self.degree as nat * 3600 * self.second.denominator as nat + self.minute as nat * 60
                * self.second.denominator as nat + self.second.numerator as nat) as nat,
            3600 * self.second.denominator as nat,
        )
    }

    /// The angle in degrees, exactly, as numerator and denominator.
    pub fn to_fraction(&self) -> (r: (u64, u64))
        requires
            self.wf(),
        ensures
            r.0 as nat == self.fraction().0,
            r.1 as nat == self.fraction().1,
    {
        let den: u64 = self.second.denominator as u64;
        assert(self.degree as u64 * 3600 * den <= 180 * 3600 * 0xffff_ffff) by (nonlinear_arith)
            requires self.degree <= 180, den <= 0xffff_ffff;
        assert(self.minute as u64 * 60 * den <= 60 * 60 * 0xffff_ffff) by (nonlinear_arith)
            requires self.minute < 60, den <= 0xffff_ffff;
        let n: u64 = self.degree as u64 * 3600 * den + self.minute as u64 * 60 * den + self.second.numerator as u64;
        (n, 3600 * den)
    }

    /// Splits an angle of at most 180 degrees in size into whole degrees, whole minutes and
    /// seconds rounded down to a multiple of `1 / den`. The sign is dropped. Gives nothing past
    /// 180 degrees. A seconds numerator past `u32::MAX` (only for very large `den`) is capped there,
    /// as the stored form holds 32 bits.
    pub fn from_f64(value: F64, den: u32) -> (r: Option<Self>)
        requires
            value.wf(),
            den > 0,
        ensures
            r is None <==> abs(value.numerator as int) > 180 * value.denominator,
            r matches Some(d) ==> {
                &&& d.wf()
                &&& d.degree == Self::split(value, den).0
                &&& d.minute == Self::split(value, den).1
                &&& d.second.numerator == (if Self::split(value, den).2 > u32::MAX { u32::MAX as nat } else {
                    Self::split(value, den).2
                })
                &&& d.second.denominator == den
            },
    {
        let q: u64 = value.denominator as u64;
        let lim: i64 = 180 * (q as i64);
        if value.numerator < -lim || value.numerator > lim {
            return None;
        }
        let a: u64 = if value.numerator < 0 { (-value.numerator) as u64 } else { value.numerator as u64 };
        let degree: u64 = a / q;
        let r1: u64 = a % q;
        let minute: u64 = (r1 * 60) / q;
        let r2: u64 = (r1 * 60) % q;
        assert(r2 < q) by (nonlinear_arith)
            requires r2 == (r1 * 60) as int % q as int, q > 0;
        assert(r2 as u128 * 60 * den as u128 <= 0xffff_ffff * 60 * 0xffff_ffff) by (nonlinear_arith)
            requires r2 <= 0xffff_ffff, den <= 0xffff_ffff;
        let scaled: u128 = r2 as u128 * 60 * den as u128;
        let sec: u128 = scaled / q as u128;
        proof {
            Self::lemma_split_bounds(value, den);
            assert(a as nat == abs(value.numerator as int));
            assert(sec as nat == Self::split(value, den).2);
        }
        let capped: u128 = if sec > u32::MAX as u128 { u32::MAX as u128 } else { sec };
        Some(DMS { degree: degree as u8, minute: minute as u8, second: F64 { numerator: capped as i64, denominator: den } })
    }

    /// Whole degrees, whole minutes and seconds in units of `1 / den` of an angle, rounded down.
    pub open spec fn split(value: F64, den: u32) -> (nat, nat, nat) {
        let q = value.denominator as nat;
        let a = abs(value.numerator as int) as nat;
        let r1 = a % q;
        let r2 = (r1 * 60) % q;
        (a / q, (r1 * 60) / q, (r2 * 60 * den as nat) / q)
    }

    proof fn lemma_split_bounds(value: F64, den: u32)
        requires
            value.wf(),
            den > 0,
            abs(value.numerator as int) <= 180 * value.denominator,
        ensures
            Self::split(value, den).0 <= 180,
            Self::split(value, den).1 < 60,
    {
        let q = value.denominator as nat;
        let a = abs(value.numerator as int) as nat;
        let r1 = a % q;
        assert(a / q <= 180) by (nonlinear_arith)
            requires a <= 180 * q, q > 0;
        assert(r1 < q) by (nonlinear_arith)
            requires r1 == a % q, q > 0;
        assert((r1 * 60) / q < 60) by (nonlinear_arith)
            requires r1 < q, q > 0;
    }
}

pub open spec fn abs(i: int) -> int {
    if i < 0 {
        -i
    } else {
        i
    }
}

proof fn lemma_split_total(value: F64, den: u32)
    requires
        value.wf(),
        den > 0,
        abs(value.numerator as int) <= 180 * value.denominator,
    ensures
        ({
            let (d, m, s) = DMS::split(value, den);
            let total = d * 3600 * den + m * 60 * den + s;
            let q = value.denominator as int;
            let a = abs(value.numerator as int);
            0 <= a * 3600 * den - total * q < q
        }),
{
    let q = value.denominator as int;
    let a = abs(value.numerator as int);
    let dn = den as int;
    let d = a / q;
    let r1 = a % q;
    let m = (r1 * 60) / q;
    let r2 = (r1 * 60) % q;
    let s = (r2 * 60 * dn) / q;
    let r3 = (r2 * 60 * dn) % q;
    assert(a == d * q + r1 && 0 <= r1 < q) by (nonlinear_arith)
        requires d == a / q, r1 == a % q, q > 0, a >= 0;
    assert(r1 * 60 == m * q + r2 && 0 <= r2 < q) by (nonlinear_arith)
        requires m == (r1 * 60) / q, r2 == (r1 * 60) % q, q > 0, r1 >= 0;
    assert(r2 * 60 * dn == s * q + r3 && 0 <= r3 < q) by (nonlinear_arith)
        requires s == (r2 * 60 * dn) / q, r3 == (r2 * 60 * dn) % q, q > 0, r2 >= 0, dn > 0;
    assert(a * 3600 * dn - (d * 3600 * dn + m * 60 * dn + s) * q == r3) by (nonlinear_arith)
        requires
            a == d * q + r1,
            r1 * 60 == m * q + r2,
            r2 * 60 * dn == s * q + r3;
}

/// An angle of at most 180 degrees, split into degrees, minutes and seconds over `den` (what
/// `DMS::from_f64` gives), adds up again to its size within one unit of the seconds field:
/// `0 <= |v| - total < 1 / (3600 * den)`, written without division.
pub proof fn lemma_decimal_round_trip(value: F64, den: u32, d: DMS)
    requires
        value.wf(),
        den > 0,
        abs(value.numerator as int) <= 180 * value.denominator,
        d.degree == DMS::split(value, den).0,
        d.minute == DMS::split(value, den).1,
        d.second.numerator == DMS::split(value, den).2,
        d.second.denominator == den,
    ensures
        0 <= abs(value.numerator as int) * d.fraction().1 - d.fraction().0 * value.denominator < value.denominator,
{
    lemma_split_total(value, den);
    let (dg, mn, sc) = DMS::split(value, den);
    let a = abs(value.numerator as int);
    let q = value.denominator as int;
    let dn = den as int;
    assert(d.fraction().1 == 3600 * dn);
    assert(d.fraction().0 == dg * 3600 * dn + mn * 60 * dn + sc);
    assert(a * (3600 * dn) == a * 3600 * dn) by (nonlinear_arith);
}

} // verus!
