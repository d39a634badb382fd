//! Display text of raw payloads.
use vstd::prelude::*;
use vstd::string::StringExecFns;
use crate::rational::{uR64, iR64, ExifRational};
use crate::tag::TagValue;
use crate::text::{dec_int, list_dec, list_text, signed_text};
use crate::user::{hex_list, to_hex};

verus! {

/// A list of numbers as display text: `None` when empty, the number alone, or the bracketed list.
pub open spec fn number_text(s: Seq<int>) -> Seq<char> {
    if s.len() == 0 {
        "None"@
    } else if s.len() == 1 {
        dec_int(s[0])
    } else {
        list_dec(s)
    }
}

/// Texts in quotes, separated by a comma and a space.
pub open spec fn join_quoted(s: Seq<Seq<char>>) -> Seq<char>
    decreases s.len(),
{
    if s.len() == 0 {
        seq![]
    } else if s.len() == 1 {
        seq!['"'] + s[0] + seq!['"']
    } else {
        join_quoted(s.drop_last()) + seq![',', ' ', '"'] + s.last() + seq!['"']
    }
}

/// A list of rationals as display text: `None` when empty, `n/d` alone, or a bracketed list of
/// quoted `n/d` texts.
pub open spec fn rational_text(s: Seq<Seq<char>>) -> Seq<char> {
    if s.len() == 0 {
        "None"@
    } else if s.len() == 1 {
        s[0]
    } else {
        seq!['['] + join_quoted(s) + seq![']']
    }
}

/// Display text of a list of numbers.
pub fn string_number(v: &[i64]) -> (r: String)
    ensures
        r@ == number_text(v@.map_values(|x: i64| x as int)),
{
    if v.len() == 0 {
        String::from_str("None")
    } else if v.len() == 1 {
        signed_text(v[0])
    } else {
        list_text(v)
    }
}

/// Display text of a list of rationals, given their `n/d` texts.
pub fn string_rational(v: &Vec<String>) -> (r: String)
    ensures
        r@ == rational_text(v@.map_values(|t: String| t@)),
{
    let ghost w = v@.map_values(|t: String| t@);
    if v.len() == 0 {
        return String::from_str("None");
    }
    if v.len() == 1 {
        return v[0].clone();
    }
    let mut s = String::from_str("[");
    let mut i: usize = 0;
    proof {
        reveal_strlit("[");
        assert(w.take(0) =~= Seq::<Seq<char>>::empty());
        assert(s@ =~= seq!['['] + join_quoted(w.take(0)));
    }
    while i < v.len()
        invariant
            0 <= i <= v@.len(),
            w == v@.map_values(|t: String| t@),
            s@ == seq!['['] + join_quoted(w.take(i as int)),
        decreases v@.len() - i,
    {
        proof {
            reveal_strlit("\"");
            reveal_strlit(", \"");
            assert(w.take(i as int + 1).drop_last() =~= w.take(i as int));
        }
        if i == 0 {
            s.append("\"");
        } else {
            s.append(", \"");
        }
        s.append(v[i].as_str());
        s.append("\"");
        proof {
            if i == 0 {
                assert(w.take(1) =~= seq![w[0]]);
            }
            assert(s@ =~= seq!['['] + join_quoted(w.take(i as int + 1)));
        }
        i = i + 1;
    }
    s.append("]");
    proof {
        reveal_strlit("]");
        assert(w.take(v@.len() as int) =~= w);
    }
    s
}

pub open spec fn ints_u8(v: Seq<u8>) -> Seq<int> {
    v.map_values(|x: u8| x as int)
}

pub open spec fn ints_u16(v: Seq<u16>) -> Seq<int> {
    v.map_values(|x: u16| x as int)
}

pub open spec fn ints_u32(v: Seq<u32>) -> Seq<int> {
    v.map_values(|x: u32| x as int)
}

pub open spec fn ints_i8(v: Seq<i8>) -> Seq<int> {
    v.map_values(|x: i8| x as int)
}

pub open spec fn ints_i16(v: Seq<i16>) -> Seq<int> {
    v.map_values(|x: i16| x as int)
}

pub open spec fn ints_i32(v: Seq<i32>) -> Seq<int> {
    v.map_values(|x: i32| x as int)
}

pub open spec fn texts_ur(v: Seq<uR64>) -> Seq<Seq<char>> {
    v.map_values(|x: uR64| x.text())
}

pub open spec fn texts_ir(v: Seq<iR64>) -> Seq<Seq<char>> {
    v.map_values(|x: iR64| x.text())
}

/// How a payload reads in the list of unrecognised tags.
pub open spec fn payload_text(v: TagValue) -> Seq<char> {
    match v {
        TagValue::Ascii(s) => s@,
        TagValue::U8(b) => number_text(ints_u8(b@)),
        TagValue::U16(b) => number_text(ints_u16(b@)),
        TagValue::U32(b) => number_text(ints_u32(b@)),
        TagValue::URational(b) => rational_text(texts_ur(b@)),
        TagValue::I8(b) => number_text(ints_i8(b@)),
        TagValue::Undefined(b) => number_text(ints_u8(b@)),
        TagValue::I16(b) => number_text(ints_i16(b@)),
        TagValue::I32(b) => number_text(ints_i32(b@)),
        TagValue::IRational(b) => rational_text(texts_ir(b@)),
        TagValue::Opaque(_, b) => hex_list(b@),
    }
}

pub fn widen_bytes_i64(v: &Vec<u8>) -> (r: Vec<i64>)
    ensures
        r@.map_values(|x: i64| x as int) == ints_u8(v@),
{
    widen_u8(v)
}

fn widen_u8(v: &Vec<u8>) -> (r: Vec<i64>)
    ensures
        r@.map_values(|x: i64| x as int) == ints_u8(v@),
{
    let mut r: Vec<i64> = Vec::new();
    let mut i: usize = 0;
    while i < v.len()
        invariant
            0 <= i <= v@.len(),
            r@.len() == i,
            forall|j: int| 0 <= j < i ==> r@[j] as int == v@[j] as int,
        decreases v@.len() - i,
    {
        r.push(v[i] as i64);
        i = i + 1;
    }
    assert(r@.map_values(|x: i64| x as int) =~= ints_u8(v@));
    r
}

pub fn widen_u16_i64(v: &Vec<u16>) -> (r: Vec<i64>)
    ensures
        r@.map_values(|x: i64| x as int) == ints_u16(v@),
{
    widen_u16(v)
}

pub fn widen_u32_i64(v: &Vec<u32>) -> (r: Vec<i64>)
    ensures
        r@.map_values(|x: i64| x as int) == ints_u32(v@),
{
    widen_u32(v)
}

fn widen_u16(v: &Vec<u16>) -> (r: Vec<i64>)
    ensures
        r@.map_values(|x: i64| x as int) == ints_u16(v@),
{
    let mut r: Vec<i64> = Vec::new();
    let mut i: usize = 0;
    while i < v.len()
        invariant
            0 <= i <= v@.len(),
            r@.len() == i,
            forall|j: int| 0 <= j < i ==> r@[j] as int == v@[j] as int,
        decreases v@.len() - i,
    {
        r.push(v[i] as i64);
        i = i + 1;
    }
    assert(r@.map_values(|x: i64| x as int) =~= ints_u16(v@));
    r
}

fn widen_u32(v: &Vec<u32>) -> (r: Vec<i64>)
    ensures
        r@.map_values(|x: i64| x as int) == ints_u32(v@),
{
    let mut r: Vec<i64> = Vec::new();
    let mut i: usize = 0;
    while i < v.len()
        invariant
            0 <= i <= v@.len(),
            r@.len() == i,
            forall|j: int| 0 <= j < i ==> r@[j] as int == v@[j] as int,
        decreases v@.len() - i,
    {
        r.push(v[i] as i64);
        i = i + 1;
    }
    assert(r@.map_values(|x: i64| x as int) =~= ints_u32(v@));
    r
}

fn widen_i8(v: &Vec<i8>) -> (r: Vec<i64>)
    ensures
        r@.map_values(|x: i64| x as int) == ints_i8(v@),
{
    let mut r: Vec<i64> = Vec::new();
    let mut i: usize = 0;
    while i < v.len()
        invariant
            0 <= i <= v@.len(),
            r@.len() == i,
            forall|j: int| 0 <= j < i ==> r@[j] as int == v@[j] as int,
        decreases v@.len() - i,
    {
        r.push(v[i] as i64);
        i = i + 1;
    }
    assert(r@.map_values(|x: i64| x as int) =~= ints_i8(v@));
    r
}

fn widen_i16(v: &Vec<i16>) -> (r: Vec<i64>)
    ensures
        r@.map_values(|x: i64| x as int) == ints_i16(v@),
{
    let mut r: Vec<i64> = Vec::new();
    let mut i: usize = 0;
    while i < v.len()
        invariant
            0 <= i <= v@.len(),
            r@.len() == i,
            forall|j: int| 0 <= j < i ==> r@[j] as int == v@[j] as int,
        decreases v@.len() - i,
    {
        r.push(v[i] as i64);
        i = i + 1;
    }
    assert(r@.map_values(|x: i64| x as int) =~= ints_i16(v@));
    r
}

fn widen_i32(v: &Vec<i32>) -> (r: Vec<i64>)
    ensures
        r@.map_values(|x: i64| x as int) == ints_i32(v@),
{
    let mut r: Vec<i64> = Vec::new();
    let mut i: usize = 0;
    while i < v.len()
        invariant
            0 <= i <= v@.len(),
            r@.len() == i,
            forall|j: int| 0 <= j < i ==> r@[j] as int == v@[j] as int,
        decreases v@.len() - i,
    {
        r.push(v[i] as i64);
        i = i + 1;
    }
    assert(r@.map_values(|x: i64| x as int) =~= ints_i32(v@));
    r
}

fn texts_of_ur(v: &Vec<uR64>) -> (r: Vec<String>)
    ensures
        r@.map_values(|t: String| t@) == texts_ur(v@),
{
    let mut r: Vec<String> = Vec::new();
    let mut i: usize = 0;
    while i < v.len()
        invariant
            0 <= i <= v@.len(),
            r@.len() == i,
            forall|j: int| 0 <= j < i ==> (#[trigger] r@[j])@ == v@[j].text(),
        decreases v@.len() - i,
    {
        r.push(ExifRational::to_string(&v[i]));
        i = i + 1;
    }
    assert(r@.map_values(|t: String| t@) =~= texts_ur(v@));
    r
}

fn texts_of_ir(v: &Vec<iR64>) -> (r: Vec<String>)
    ensures
        r@.map_values(|t: String| t@) == texts_ir(v@),
{
    let mut r: Vec<String> = Vec::new();
    let mut i: usize = 0;
    while i < v.len()
        invariant
            0 <= i <= v@.len(),
            r@.len() == i,
            forall|j: int| 0 <= j < i ==> (#[trigger] r@[j])@ == v@[j].text(),
        decreases v@.len() - i,
    {
        r.push(ExifRational::to_string(&v[i]));
        i = i + 1;
    }
    assert(r@.map_values(|t: String| t@) =~= texts_ir(v@));
    r
}

/// Display text of a payload.
pub fn payload_string(v: &TagValue) -> (r: String)
    ensures
        r@ == payload_text(*v),
{
    match v {
        TagValue::Ascii(s) => s.clone(),
        TagValue::U8(b) => string_number(widen_u8(b).as_slice()),
        TagValue::U16(b) => string_number(widen_u16(b).as_slice()),
        TagValue::U32(b) => string_number(widen_u32(b).as_slice()),
        TagValue::URational(b) => string_rational(&texts_of_ur(b)),
        TagValue::I8(b) => string_number(widen_i8(b).as_slice()),
        TagValue::Undefined(b) => string_number(widen_u8(b).as_slice()),
        TagValue::I16(b) => string_number(widen_i16(b).as_slice()),
        TagValue::I32(b) => string_number(widen_i32(b).as_slice()),
        TagValue::IRational(b) => string_rational(&texts_of_ir(b)),
        TagValue::Opaque(_, b) => to_hex(b.as_slice()),
    }
}

} // verus!
