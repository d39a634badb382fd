//! Rationals as the tag table stores them, and the fixed-point decimal that keeps its denominator.
use vstd::prelude::*;
use vstd::string::StringExecFns;
use crate::text::{dec, dec_int, decimal_text, signed_text};

verus! {

/// An unsigned rational as the tag table stores it.
#[allow(non_camel_case_types)]
#[derive(Clone, Copy, Debug, PartialEq, Eq, Structural)]
pub struct uR64 {
    pub nominator: u32,
    pub denominator: u32,
}

/// A signed rational as the tag table stores it.
#[allow(non_camel_case_types)]
#[derive(Clone, Copy, Debug, PartialEq, Eq, Structural)]
pub struct iR64 {
    pub nominator: i32,
    pub denominator: i32,
}

/// Text and construction shared by both rational widths.
pub trait ExifRational: Sized {
    spec fn text(&self) -> Seq<char>;

    /// `nominator/denominator` in decimal.
    fn to_string(&self) -> (r: String)
        ensures
            r@ == self.text(),
    ;

    /// Builds the rational from two signed parts; the unsigned width keeps their bit patterns.
    fn new(nominator: i32, denominator: i32) -> Self;
}

impl ExifRational for uR64 {
    open spec fn text(&self) -> Seq<char> {
        dec(self.nominator as nat) + seq!['/'] + dec(self.denominator as nat)
    }

    fn to_string(&self) -> (r: String) {
        let mut s = decimal_text(self.nominator as u64);
        s.append("/");
        let d = decimal_text(self.denominator as u64);
        s.append(d.as_str());
        proof {
            reveal_strlit("/");
        }
        s
    }

    fn new(nominator: i32, denominator: i32) -> (r: Self)
        ensures
            r.nominator == nominator as u32,
            r.denominator == denominator as u32,
    {
        uR64 { nominator: nominator as u32, denominator: denominator as u32 }
    }
}

impl ExifRational for iR64 {
    open spec fn text(&self) -> Seq<char> {
        dec_int(self.nominator as int) + seq!['/'] + dec_int(self.denominator as int)
    }

    fn to_string(&self) -> (r: String) {
        let mut s = signed_text(self.nominator as i64);
        s.append("/");
        let d = signed_text(self.denominator as i64);
        s.append(d.as_str());
        proof {
            reveal_strlit("/");
        }
        s
    }

    fn new(nominator: i32, denominator: i32) -> (r: Self)
        ensures
            r.nominator == nominator,
            r.denominator == denominator,
    {
        iR64 { nominator, denominator }
    }
}

/// A fixed-point decimal: the exact value `numerator / denominator`, kept together with the
/// denominator it came from so that it can be written back as the same rational. Two values are
/// equal, and ordered, by the number they denote.
#[derive(Clone, Copy, Debug)]
pub struct F64 {
    pub numerator: i64,
    pub denominator: u32,
}

/// The cross products that compare `a` and `b` as numbers.
pub open spec fn cross(a: F64, b: F64) -> (int, int) {
    (a.numerator * b.denominator, b.numerator * a.denominator)
}

fn cross_of(a: &F64, b: &F64) -> (r: (i128, i128))
    ensures
        r.0 == cross(*a, *b).0,
        r.1 == cross(*a, *b).1,
{
    let an = a.numerator as i128;
    let bn = b.numerator as i128;
    let ad = a.denominator as i128;
    let bd = b.denominator as i128;
    assert(-0x8000_0000_0000_0000 * 0xffff_ffff <= an * bd <= 0x7fff_ffff_ffff_ffff * 0xffff_ffff) by (nonlinear_arith)
        requires -0x8000_0000_0000_0000 <= an <= 0x7fff_ffff_ffff_ffff, 0 <= bd <= 0xffff_ffff;
    assert(-0x8000_0000_0000_0000 * 0xffff_ffff <= bn * ad <= 0x7fff_ffff_ffff_ffff * 0xffff_ffff) by (nonlinear_arith)
        requires -0x8000_0000_0000_0000 <= bn <= 0x7fff_ffff_ffff_ffff, 0 <= ad <= 0xffff_ffff;
    (an * bd, bn * ad)
}

impl PartialEq for F64 {
    fn eq(&self, o: &F64) -> (r: bool) {
        let (l, g) = cross_of(self, o);
        l == g
    }
}

impl vstd::std_specs::cmp::PartialEqSpecImpl for F64 {
    open spec fn obeys_eq_spec() -> bool {
        true
    }

    open spec fn eq_spec(&self, o: &F64) -> bool {
        cross(*self, *o).0 == cross(*self, *o).1
    }
}

impl PartialOrd for F64 {
    fn partial_cmp(&self, o: &F64) -> (r: Option<core::cmp::Ordering>) {
        let (l, g) = cross_of(self, o);
        if l < g {
            Some(core::cmp::Ordering::Less)
        } else if l == g {
            Some(core::cmp::Ordering::Equal)
        } else {
            Some(core::cmp::Ordering::Greater)
        }
    }
}

impl vstd::std_specs::cmp::PartialOrdSpecImpl for F64 {
    open spec fn obeys_partial_cmp_spec() -> bool {
        true
    }

    open spec fn partial_cmp_spec(&self, o: &F64) -> Option<core::cmp::Ordering> {
        if cross(*self, *o).0 < cross(*self, *o).1 {
            Some(core::cmp::Ordering::Less)
        } else if cross(*self, *o).0 == cross(*self, *o).1 {
            Some(core::cmp::Ordering::Equal)
        } else {
            Some(core::cmp::Ordering::Greater)
        }
    }
}

impl F64 {
    /// A usable value has a positive denominator.
    pub open spec fn wf(&self) -> bool {
        self.denominator > 0
    }

    /// Two values are the same number.
    pub open spec fn same_value(&self, o: &F64) -> bool {
        self.numerator * o.denominator == o.numerator * self.denominator
    }

    pub fn new(numerator: i64, denominator: u32) -> (r: Self)
        ensures
            r.numerator == numerator,
            r.denominator == denominator,
    {
        F64 { numerator, denominator }
    }

    /// An unsigned rational read as a decimal.
    pub open spec fn from_ur64_spec(u: uR64) -> F64 {
        F64 { numerator: u.nominator as i64, denominator: if u.denominator == 0 { 1 } else { u.denominator } }
    }

    /// Reads an unsigned rational; a zero denominator is read as one.
    pub fn from_ur64(u: &uR64) -> (r: Self)
        ensures
            r.wf(),
            r == Self::from_ur64_spec(*u),
    {
        let den: u32 = if u.denominator == 0 { 1 } else { u.denominator };
        F64 { numerator: u.nominator as i64, denominator: den }
    }

    /// A signed rational read as a decimal: a zero denominator counts as one, and the sign of the
    /// denominator moves to the numerator.
    pub open spec fn from_ir64_spec(i: iR64) -> F64 {
        if i.denominator == 0 {
            F64 { numerator: i.nominator as i64, denominator: 1 }
        } else if i.denominator > 0 {
            F64 { numerator: i.nominator as i64, denominator: i.denominator as u32 }
        } else {
            F64 { numerator: (-i.nominator) as i64, denominator: (-i.denominator) as u32 }
        }
    }

    /// Reads a signed rational; a zero denominator is read as one and the sign moves to the
    /// numerator.
    pub fn from_ir64(i: &iR64) -> (r: Self)
        ensures
            r.wf(),
            r == Self::from_ir64_spec(*i),
            i.denominator == 0 ==> r.numerator == i.nominator && r.denominator == 1,
            i.denominator > 0 ==> r.numerator == i.nominator && r.denominator == i.denominator,
            i.denominator < 0 ==> r.numerator == -i.nominator && r.denominator == -i.denominator,
    {
        if i.denominator == 0 {
            F64 { numerator: i.nominator as i64, denominator: 1 }
        } else if i.denominator > 0 {
            F64 { numerator: i.nominator as i64, denominator: i.denominator as u32 }
        } else {
            let d: i64 = -(i.denominator as i64);
            F64 { numerator: -(i.nominator as i64), denominator: d as u32 }
        }
    }

    pub fn numerator(&self) -> (r: i64)
        ensures
            r == self.numerator,
    {
        self.numerator
    }

    pub fn den(&self) -> (r: u32)
        ensures
            r == self.denominator,
    {
        self.denominator
    }

    /// Writes the value back as an unsigned rational over its own denominator; a negative value
    /// has none, and a numerator past `u32::MAX` saturates.
    pub fn to_ur64(self) -> (r: Result<uR64, ()>)
        ensures
            self.numerator < 0 <==> r is Err,
            r matches Ok(u) ==> u.denominator == self.denominator && u.nominator == (if self.numerator
                > u32::MAX as i64 { u32::MAX as i64 } else { self.numerator }),
    {
        if self.numerator < 0 {
            Err(())
        } else {
            let n: u32 = if self.numerator > u32::MAX as i64 { u32::MAX } else { self.numerator as u32 };
            Ok(uR64 { nominator: n, denominator: self.denominator })
        }
    }

    /// Display text: the whole number when the fraction is one, `numerator/denominator`
    /// otherwise.
    pub open spec fn text(&self) -> Seq<char> {
        if self.denominator == 1 {
            dec_int(self.numerator as int)
        } else {
            dec_int(self.numerator as int) + seq!['/'] + dec(self.denominator as nat)
        }
    }

    pub fn show_value(&self) -> (r: String)
        ensures
            r@ == self.text(),
    {
        if self.denominator == 1 {
            return signed_text(self.numerator);
        }
        let mut s = signed_text(self.numerator);
        s.append("/");
        let d = decimal_text(self.denominator as u64);
        s.append(d.as_str());
        proof {
            reveal_strlit("/");
        }
        s
    }
}

} // verus!
