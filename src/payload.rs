//! Raw payloads to and from their big-endian byte form.
use vstd::prelude::*;
use vstd::utf8::{valid_utf8, decode_utf8, encode_utf8, encode_utf8_valid_utf8, encode_utf8_decode_utf8};
use vstd::string::StringSliceAdditionalSpecFns;
use crate::rational::{uR64, iR64};
use crate::tag::TagValue;

verus! {

/// The two big-endian bytes of a 16-bit number.
pub open spec fn be2(x: u16) -> Seq<u8> {
    seq![(x / 256) as u8, (x % 256) as u8]
}

/// The four big-endian bytes of a 32-bit number.
pub open spec fn be4(x: u32) -> Seq<u8> {
    seq![(x / 16777216) as u8, ((x / 65536) % 256) as u8, ((x / 256) % 256) as u8, (x % 256) as u8]
}

/// `b` holds the numbers of `s` one after the other, `w` bytes each, as `enc` writes them.
pub open spec fn packed_by<T>(s: Seq<T>, b: Seq<u8>, w: nat, enc: spec_fn(T) -> Seq<u8>) -> bool {
    &&& b.len() == w * s.len()
    &&& forall|i: int| 0 <= i < s.len() ==> #[trigger] b.subrange(w * i, w * i + w) == enc(s[i])
}

pub open spec fn enc_u16() -> spec_fn(u16) -> Seq<u8> {
    |x: u16| be2(x)
}

pub open spec fn enc_u32() -> spec_fn(u32) -> Seq<u8> {
    |x: u32| be4(x)
}

pub open spec fn enc_i8() -> spec_fn(i8) -> Seq<u8> {
    |x: i8| seq![x as u8]
}

pub open spec fn enc_i16() -> spec_fn(i16) -> Seq<u8> {
    |x: i16| be2(x as u16)
}

pub open spec fn enc_i32() -> spec_fn(i32) -> Seq<u8> {
    |x: i32| be4(x as u32)
}

pub open spec fn enc_ur() -> spec_fn(uR64) -> Seq<u8> {
    |x: uR64| be4(x.nominator) + be4(x.denominator)
}

pub open spec fn enc_ir() -> spec_fn(iR64) -> Seq<u8> {
    |x: iR64| be4(x.nominator as u32) + be4(x.denominator as u32)
}

/// A text as the table stores it: its UTF-8 bytes, closed by a zero byte when it is written.
pub open spec fn ascii_bytes(s: Seq<char>, b: Seq<u8>) -> bool {
    exists|t: Seq<u8>| valid_utf8(t) && decode_utf8(t) == s && (b == t.push(0u8) || b == t)
}

impl TagValue {
    /// The format code of the payload's shape.
    pub open spec fn format(&self) -> u16 {
        match self {
            TagValue::U8(_) => 1,
            TagValue::Ascii(_) => 2,
            TagValue::U16(_) => 3,
            TagValue::U32(_) => 4,
            TagValue::URational(_) => 5,
            TagValue::I8(_) => 6,
            TagValue::Undefined(_) => 7,
            TagValue::I16(_) => 8,
            TagValue::I32(_) => 9,
            TagValue::IRational(_) => 10,
            TagValue::Opaque(f, _) => *f,
        }
    }

    /// `b` is the big-endian byte form of the payload.
    pub open spec fn stored_as(&self, b: Seq<u8>) -> bool {
        match self {
            TagValue::U8(v) => b == v@,
            TagValue::Ascii(s) => ascii_bytes(s@, b),
            TagValue::U16(v) => packed_by(v@, b, 2, enc_u16()),
            TagValue::U32(v) => packed_by(v@, b, 4, enc_u32()),
            TagValue::URational(v) => packed_by(v@, b, 8, enc_ur()),
            TagValue::I8(v) => packed_by(v@, b, 1, enc_i8()),
            TagValue::Undefined(v) => b == v@,
            TagValue::I16(v) => packed_by(v@, b, 2, enc_i16()),
            TagValue::I32(v) => packed_by(v@, b, 4, enc_i32()),
            TagValue::IRational(v) => packed_by(v@, b, 8, enc_ir()),
            TagValue::Opaque(_, v) => b == v@,
        }
    }

    /// The format code of the payload's shape.
    pub fn format_code(&self) -> (r: u16)
        ensures
            r == self.format(),
    {
        match self {
            TagValue::U8(_) => 1,
            TagValue::Ascii(_) => 2,
            TagValue::U16(_) => 3,
            TagValue::U32(_) => 4,
            TagValue::URational(_) => 5,
            TagValue::I8(_) => 6,
            TagValue::Undefined(_) => 7,
            TagValue::I16(_) => 8,
            TagValue::I32(_) => 9,
            TagValue::IRational(_) => 10,
            TagValue::Opaque(f, _) => *f,
        }
    }
}

fn push_be2(out: &mut Vec<u8>, x: u16)
    ensures
        final(out)@ == old(out)@ + be2(x),
{
    out.push((x / 256) as u8);
    out.push((x % 256) as u8);
    assert(out@ =~= old(out)@ + be2(x));
}

fn push_be4(out: &mut Vec<u8>, x: u32)
    ensures
        final(out)@ == old(out)@ + be4(x),
{
    out.push((x / 16777216) as u8);
    out.push(((x / 65536) % 256) as u8);
    out.push(((x / 256) % 256) as u8);
    out.push((x % 256) as u8);
    assert(out@ =~= old(out)@ + be4(x));
}

proof fn lemma_packed_push<T>(s: Seq<T>, b: Seq<u8>, w: nat, enc: spec_fn(T) -> Seq<u8>, x: T)
    requires
        packed_by(s, b, w, enc),
        enc(x).len() == w,
    ensures
        packed_by(s.push(x), b + enc(x), w, enc),
{
    let s2 = s.push(x);
    let b2 = b + enc(x);
    assert forall|i: int| 0 <= i < s2.len() implies #[trigger] b2.subrange(w * i, w * i + w) == enc(s2[i]) by {
        if i < s.len() {
            assert(w * i + w <= w * s.len()) by (nonlinear_arith)
                requires i < s.len(), w >= 0;
            assert(b2.subrange(w * i, w * i + w) =~= b.subrange(w * i, w * i + w));
        } else {
            assert(b2.subrange(w * i, w * i + w) =~= enc(x));
        }
    }
    assert(b2.len() == w * s2.len()) by (nonlinear_arith)
        requires b2.len() == b.len() + w, b.len() == w * s.len(), s2.len() == s.len() + 1;
}

fn bytes_of_u16(v: &Vec<u16>) -> (r: Vec<u8>)
    ensures
        packed_by(v@, r@, 2, enc_u16()),
{
    let mut r: Vec<u8> = Vec::new();
    let mut i: usize = 0;
    assert(v@.take(0) =~= Seq::<u16>::empty());
    while i < v.len()
        invariant
            0 <= i <= v@.len(),
            packed_by(v@.take(i as int), r@, 2, enc_u16()),
        decreases v@.len() - i,
    {
        let ghost before = r@;
        proof {
            lemma_packed_push(v@.take(i as int), r@, 2, enc_u16(), v@[i as int]);
            assert(v@.take(i as int + 1) =~= v@.take(i as int).push(v@[i as int]));
        }
        push_be2(&mut r, v[i]);
        assert(r@ =~= before + enc_u16()(v@[i as int]));
        i = i + 1;
    }
    assert(v@.take(v@.len() as int) =~= v@);
    r
}

fn bytes_of_u32(v: &Vec<u32>) -> (r: Vec<u8>)
    ensures
        packed_by(v@, r@, 4, enc_u32()),
{
    let mut r: Vec<u8> = Vec::new();
    let mut i: usize = 0;
    assert(v@.take(0) =~= Seq::<u32>::empty());
    while i < v.len()
        invariant
            0 <= i <= v@.len(),
            packed_by(v@.take(i as int), r@, 4, enc_u32()),
        decreases v@.len() - i,
    {
        let ghost before = r@;
        proof {
            lemma_packed_push(v@.take(i as int), r@, 4, enc_u32(), v@[i as int]);
            assert(v@.take(i as int + 1) =~= v@.take(i as int).push(v@[i as int]));
        }
        push_be4(&mut r, v[i]);
        assert(r@ =~= before + enc_u32()(v@[i as int]));
        i = i + 1;
    }
    assert(v@.take(v@.len() as int) =~= v@);
    r
}

fn bytes_of_ur64(v: &Vec<uR64>) -> (r: Vec<u8>)
    ensures
        packed_by(v@, r@, 8, enc_ur()),
{
    let mut r: Vec<u8> = Vec::new();
    let mut i: usize = 0;
    assert(v@.take(0) =~= Seq::<uR64>::empty());
    while i < v.len()
        invariant
            0 <= i <= v@.len(),
            packed_by(v@.take(i as int), r@, 8, enc_ur()),
        decreases v@.len() - i,
    {
        let ghost before = r@;
        proof {
            lemma_packed_push(v@.take(i as int), r@, 8, enc_ur(), v@[i as int]);
            assert(v@.take(i as int + 1) =~= v@.take(i as int).push(v@[i as int]));
        }
        push_be4(&mut r, v[i].nominator);
            push_be4(&mut r, v[i].denominator);
        assert(r@ =~= before + enc_ur()(v@[i as int]));
        i = i + 1;
    }
    assert(v@.take(v@.len() as int) =~= v@);
    r
}

fn bytes_of_i8(v: &Vec<i8>) -> (r: Vec<u8>)
    ensures
        packed_by(v@, r@, 1, enc_i8()),
{
    let mut r: Vec<u8> = Vec::new();
    let mut i: usize = 0;
    assert(v@.take(0) =~= Seq::<i8>::empty());
    while i < v.len()
        invariant
            0 <= i <= v@.len(),
            packed_by(v@.take(i as int), r@, 1, enc_i8()),
        decreases v@.len() - i,
    {
        let ghost before = r@;
        proof {
            lemma_packed_push(v@.take(i as int), r@, 1, enc_i8(), v@[i as int]);
            assert(v@.take(i as int + 1) =~= v@.take(i as int).push(v@[i as int]));
        }
        r.push(v[i] as u8);
        assert(r@ =~= before + enc_i8()(v@[i as int]));
        i = i + 1;
    }
    assert(v@.take(v@.len() as int) =~= v@);
    r
}

fn bytes_of_i16(v: &Vec<i16>) -> (r: Vec<u8>)
    ensures
        packed_by(v@, r@, 2, enc_i16()),
{
    let mut r: Vec<u8> = Vec::new();
    let mut i: usize = 0;
    assert(v@.take(0) =~= Seq::<i16>::empty());
    while i < v.len()
        invariant
            0 <= i <= v@.len(),
            packed_by(v@.take(i as int), r@, 2, enc_i16()),
        decreases v@.len() - i,
    {
        let ghost before = r@;
        proof {
            lemma_packed_push(v@.take(i as int), r@, 2, enc_i16(), v@[i as int]);
            assert(v@.take(i as int + 1) =~= v@.take(i as int).push(v@[i as int]));
        }
        push_be2(&mut r, v[i] as u16);
        assert(r@ =~= before + enc_i16()(v@[i as int]));
        i = i + 1;
    }
    assert(v@.take(v@.len() as int) =~= v@);
    r
}

fn bytes_of_i32(v: &Vec<i32>) -> (r: Vec<u8>)
    ensures
        packed_by(v@, r@, 4, enc_i32()),
{
    let mut r: Vec<u8> = Vec::new();
    let mut i: usize = 0;
    assert(v@.take(0) =~= Seq::<i32>::empty());
    while i < v.len()
        invariant
            0 <= i <= v@.len(),
            packed_by(v@.take(i as int), r@, 4, enc_i32()),
        decreases v@.len() - i,
    {
        let ghost before = r@;
        proof {
            lemma_packed_push(v@.take(i as int), r@, 4, enc_i32(), v@[i as int]);
            assert(v@.take(i as int + 1) =~= v@.take(i as int).push(v@[i as int]));
        }
        push_be4(&mut r, v[i] as u32);
        assert(r@ =~= before + enc_i32()(v@[i as int]));
        i = i + 1;
    }
    assert(v@.take(v@.len() as int) =~= v@);
    r
}

fn bytes_of_ir64(v: &Vec<iR64>) -> (r: Vec<u8>)
    ensures
        packed_by(v@, r@, 8, enc_ir()),
{
    let mut r: Vec<u8> = Vec::new();
    let mut i: usize = 0;
    assert(v@.take(0) =~= Seq::<iR64>::empty());
    while i < v.len()
        invariant
            0 <= i <= v@.len(),
            packed_by(v@.take(i as int), r@, 8, enc_ir()),
        decreases v@.len() - i,
    {
        let ghost before = r@;
        proof {
            lemma_packed_push(v@.take(i as int), r@, 8, enc_ir(), v@[i as int]);
            assert(v@.take(i as int + 1) =~= v@.take(i as int).push(v@[i as int]));
        }
        push_be4(&mut r, v[i].nominator as u32);
            push_be4(&mut r, v[i].denominator as u32);
        assert(r@ =~= before + enc_ir()(v@[i as int]));
        i = i + 1;
    }
    assert(v@.take(v@.len() as int) =~= v@);
    r
}

impl TagValue {
    /// The big-endian byte form of the payload, as the table writes it.
    pub fn to_be_bytes(&self) -> (r: Vec<u8>)
        ensures
            self.stored_as(r@),
    {
        match self {
            TagValue::U8(v) => crate::tag::copy_vec(v),
            TagValue::Ascii(s) => {
                let b = s.as_str().as_bytes();
                let mut r = crate::tag::copy_vec(&slice_vec(b));
                r.push(0u8);
                proof {
                    encode_utf8_valid_utf8(s@);
                    encode_utf8_decode_utf8(s@);
                    assert(r@ == encode_utf8(s@).push(0u8));
                }
                r
            },
            TagValue::U16(v) => bytes_of_u16(v),
            TagValue::U32(v) => bytes_of_u32(v),
            TagValue::URational(v) => bytes_of_ur64(v),
            TagValue::I8(v) => bytes_of_i8(v),
            TagValue::Undefined(v) => crate::tag::copy_vec(v),
            TagValue::I16(v) => bytes_of_i16(v),
            TagValue::I32(v) => bytes_of_i32(v),
            TagValue::IRational(v) => bytes_of_ir64(v),
            TagValue::Opaque(_, v) => crate::tag::copy_vec(v),
        }
    }
}

fn slice_vec(b: &[u8]) -> (r: Vec<u8>)
    ensures
        r@ == b@,
{
    let mut r: Vec<u8> = Vec::new();
    let mut i: usize = 0;
    while i < b.len()
        invariant
            0 <= i <= b@.len(),
            r@ == b@.take(i as int),
        decreases b@.len() - i,
    {
        r.push(b[i]);
        i = i + 1;
        assert(r@ =~= b@.take(i as int));
    }
    assert(b@.take(b@.len() as int) =~= b@);
    r
}

fn read_u16s(b: &[u8]) -> (r: Vec<u16>)
    requires
        b@.len() % 2 == 0,
    ensures
        packed_by(r@, b@, 2, enc_u16()),
{
    let mut r: Vec<u16> = Vec::new();
    let n: usize = b.len() / 2;
    let mut i: usize = 0;
    assert(b@.take(0) =~= Seq::<u8>::empty());
    while i < n
        invariant
            n * 2 == b@.len(),
            b@.len() == b.len(),
            b.len() <= usize::MAX,
            0 <= i <= n,
            packed_by(r@, b@.take(2 * i as int), 2, enc_u16()),
        decreases n - i,
    {
        let k: usize = 2 * i;
        let x: u16 = b[k] as u16 * 256 + b[k + 1] as u16;
        proof {
            assert(enc_u16()(x) =~= b@.subrange(k as int, k as int + 2));
            lemma_packed_push(r@, b@.take(k as int), 2, enc_u16(), x);
            assert(b@.take(k as int) + b@.subrange(k as int, k as int + 2) =~= b@.take(2 * (i as int + 1)));
        }
        r.push(x);
        i = i + 1;
    }
    assert(b@.take(2 * n as int) =~= b@);
    r
}

fn read_u32s(b: &[u8]) -> (r: Vec<u32>)
    requires
        b@.len() % 4 == 0,
    ensures
        packed_by(r@, b@, 4, enc_u32()),
{
    let mut r: Vec<u32> = Vec::new();
    let n: usize = b.len() / 4;
    let mut i: usize = 0;
    assert(b@.take(0) =~= Seq::<u8>::empty());
    while i < n
        invariant
            n * 4 == b@.len(),
            b@.len() == b.len(),
            b.len() <= usize::MAX,
            0 <= i <= n,
            packed_by(r@, b@.take(4 * i as int), 4, enc_u32()),
        decreases n - i,
    {
        let k: usize = 4 * i;
        let x: u32 = read_be4(b, k);
        proof {
            assert(enc_u32()(x) =~= b@.subrange(k as int, k as int + 4));
            lemma_packed_push(r@, b@.take(k as int), 4, enc_u32(), x);
            assert(b@.take(k as int) + b@.subrange(k as int, k as int + 4) =~= b@.take(4 * (i as int + 1)));
        }
        r.push(x);
        i = i + 1;
    }
    assert(b@.take(4 * n as int) =~= b@);
    r
}

fn read_ur64s(b: &[u8]) -> (r: Vec<uR64>)
    requires
        b@.len() % 8 == 0,
    ensures
        packed_by(r@, b@, 8, enc_ur()),
{
    let mut r: Vec<uR64> = Vec::new();
    let n: usize = b.len() / 8;
    let mut i: usize = 0;
    assert(b@.take(0) =~= Seq::<u8>::empty());
    while i < n
        invariant
            n * 8 == b@.len(),
            b@.len() == b.len(),
            b.len() <= usize::MAX,
            0 <= i <= n,
            packed_by(r@, b@.take(8 * i as int), 8, enc_ur()),
        decreases n - i,
    {
        let k: usize = 8 * i;
        let x = uR64 { nominator: read_be4(b, k), denominator: read_be4(b, k + 4) };
        proof {
            assert(enc_ur()(x) =~= b@.subrange(k as int, k as int + 8));
            lemma_packed_push(r@, b@.take(k as int), 8, enc_ur(), x);
            assert(b@.take(k as int) + b@.subrange(k as int, k as int + 8) =~= b@.take(8 * (i as int + 1)));
        }
        r.push(x);
        i = i + 1;
    }
    assert(b@.take(8 * n as int) =~= b@);
    r
}

fn read_i8s(b: &[u8]) -> (r: Vec<i8>)
    requires
        b@.len() % 1 == 0,
    ensures
        packed_by(r@, b@, 1, enc_i8()),
{
    let mut r: Vec<i8> = Vec::new();
    let n: usize = b.len() / 1;
    let mut i: usize = 0;
    assert(b@.take(0) =~= Seq::<u8>::empty());
    while i < n
        invariant
            n * 1 == b@.len(),
            b@.len() == b.len(),
            b.len() <= usize::MAX,
            0 <= i <= n,
            packed_by(r@, b@.take(1 * i as int), 1, enc_i8()),
        decreases n - i,
    {
        let k: usize = 1 * i;
        let bk: u8 = b[k];
        let x: i8 = bk as i8;
        assert((x as u8) == bk) by (bit_vector)
            requires
                x == bk as i8,
        ;
        proof {
            assert(enc_i8()(x) =~= b@.subrange(k as int, k as int + 1));
            lemma_packed_push(r@, b@.take(k as int), 1, enc_i8(), x);
            assert(b@.take(k as int) + b@.subrange(k as int, k as int + 1) =~= b@.take(1 * (i as int + 1)));
        }
        r.push(x);
        i = i + 1;
    }
    assert(b@.take(1 * n as int) =~= b@);
    r
}

fn read_i16s(b: &[u8]) -> (r: Vec<i16>)
    requires
        b@.len() % 2 == 0,
    ensures
        packed_by(r@, b@, 2, enc_i16()),
{
    let mut r: Vec<i16> = Vec::new();
    let n: usize = b.len() / 2;
    let mut i: usize = 0;
    assert(b@.take(0) =~= Seq::<u8>::empty());
    while i < n
        invariant
            n * 2 == b@.len(),
            b@.len() == b.len(),
            b.len() <= usize::MAX,
            0 <= i <= n,
            packed_by(r@, b@.take(2 * i as int), 2, enc_i16()),
        decreases n - i,
    {
        let k: usize = 2 * i;
        let u: u16 = b[k] as u16 * 256 + b[k + 1] as u16;
            let x: i16 = u as i16;
            assert((x as u16) == u) by (bit_vector)
                requires x == u as i16;
        proof {
            assert(enc_i16()(x) =~= b@.subrange(k as int, k as int + 2));
            lemma_packed_push(r@, b@.take(k as int), 2, enc_i16(), x);
            assert(b@.take(k as int) + b@.subrange(k as int, k as int + 2) =~= b@.take(2 * (i as int + 1)));
        }
        r.push(x);
        i = i + 1;
    }
    assert(b@.take(2 * n as int) =~= b@);
    r
}

fn read_i32s(b: &[u8]) -> (r: Vec<i32>)
    requires
        b@.len() % 4 == 0,
    ensures
        packed_by(r@, b@, 4, enc_i32()),
{
    let mut r: Vec<i32> = Vec::new();
    let n: usize = b.len() / 4;
    let mut i: usize = 0;
    assert(b@.take(0) =~= Seq::<u8>::empty());
    while i < n
        invariant
            n * 4 == b@.len(),
            b@.len() == b.len(),
            b.len() <= usize::MAX,
            0 <= i <= n,
            packed_by(r@, b@.take(4 * i as int), 4, enc_i32()),
        decreases n - i,
    {
        let k: usize = 4 * i;
        let u: u32 = read_be4(b, k);
            let x: i32 = u as i32;
            assert((x as u32) == u) by (bit_vector)
                requires x == u as i32;
        proof {
            assert(enc_i32()(x) =~= b@.subrange(k as int, k as int + 4));
            lemma_packed_push(r@, b@.take(k as int), 4, enc_i32(), x);
            assert(b@.take(k as int) + b@.subrange(k as int, k as int + 4) =~= b@.take(4 * (i as int + 1)));
        }
        r.push(x);
        i = i + 1;
    }
    assert(b@.take(4 * n as int) =~= b@);
    r
}

fn read_ir64s(b: &[u8]) -> (r: Vec<iR64>)
    requires
        b@.len() % 8 == 0,
    ensures
        packed_by(r@, b@, 8, enc_ir()),
{
    let mut r: Vec<iR64> = Vec::new();
    let n: usize = b.len() / 8;
    let mut i: usize = 0;
    assert(b@.take(0) =~= Seq::<u8>::empty());
    while i < n
        invariant
            n * 8 == b@.len(),
            b@.len() == b.len(),
            b.len() <= usize::MAX,
            0 <= i <= n,
            packed_by(r@, b@.take(8 * i as int), 8, enc_ir()),
        decreases n - i,
    {
        let k: usize = 8 * i;
        let u: u32 = read_be4(b, k);
            let d: u32 = read_be4(b, k + 4);
        let xn: i32 = u as i32;
        let xd: i32 = d as i32;
        assert((xn as u32) == u) by (bit_vector)
            requires
                xn == u as i32,
        ;
        assert((xd as u32) == d) by (bit_vector)
            requires
                xd == d as i32,
        ;
        let x = iR64 { nominator: xn, denominator: xd };
        proof {
            assert(enc_ir()(x) =~= b@.subrange(k as int, k as int + 8));
            lemma_packed_push(r@, b@.take(k as int), 8, enc_ir(), x);
            assert(b@.take(k as int) + b@.subrange(k as int, k as int + 8) =~= b@.take(8 * (i as int + 1)));
        }
        r.push(x);
        i = i + 1;
    }
    assert(b@.take(8 * n as int) =~= b@);
    r
}

fn read_be4(b: &[u8], k: usize) -> (r: u32)
    requires
        k + 4 <= b@.len(),
    ensures
        be4(r) =~= b@.subrange(k as int, k as int + 4),
{
    let x: u32 = b[k] as u32 * 16777216 + b[k + 1] as u32 * 65536 + b[k + 2] as u32 * 256 + b[k + 3] as u32;
    assert(x / 16777216 == b@[k as int] && (x / 65536) % 256 == b@[k as int + 1] && (x / 256) % 256 == b@[k as int + 2]
        && x % 256 == b@[k as int + 3]) by (nonlinear_arith)
        requires
            x == b@[k as int] as u32 * 16777216 + b@[k as int + 1] as u32 * 65536 + b@[k as int + 2] as u32 * 256 + b@[k as int + 3] as u32,
            b@[k as int] < 256, b@[k as int + 1] < 256, b@[k as int + 2] < 256, b@[k as int + 3] < 256;
    x
}

impl TagValue {
    /// Whether bytes of the given format code can be read: a known format, a length that is a
    /// whole number of values, and valid UTF-8 for text.
    pub open spec fn decodable(format: u16, b: Seq<u8>) -> bool {
        if format == 1 || format == 6 || format == 7 || format == 11 || format == 12 {
            true
        } else if format == 2 {
            valid_utf8(if b.len() > 0 && b.last() == 0 { b.drop_last() } else { b })
        } else if format == 3 || format == 8 {
            b.len() % 2 == 0
        } else if format == 4 || format == 9 {
            b.len() % 4 == 0
        } else if format == 5 || format == 10 {
            b.len() % 8 == 0
        } else {
            false
        }
    }

    /// Reads a payload of the given format code from its big-endian bytes. Text loses its closing
    /// zero byte; floating-point formats are kept as raw bytes.
    pub fn from_be_bytes(format: u16, b: &[u8]) -> (r: Option<TagValue>)
        ensures
            r is Some <==> Self::decodable(format, b@),
            r matches Some(v) ==> v.format() == format && v.stored_as(b@),
    {
        match format {
            1 => Some(TagValue::U8(slice_vec(b))),
            2 => {
                let n = b.len();
                let end: usize = if n > 0 && b[n - 1] == 0 { n - 1 } else { n };
                let t = bytes_prefix(b, end);
                match crate::user::utf8_text(t.as_slice()) {
                    Some(s) => {
                        proof {
                            if n > 0 && b@[n - 1] == 0 {
                                assert(b@ =~= t@.push(0u8));
                                assert(t@ == b@.drop_last());
                            } else {
                                assert(t@ =~= b@);
                            }
                        }
                        Some(TagValue::Ascii(s))
                    },
                    None => {
                        proof {
                            if n > 0 && b@[n - 1] == 0 {
                                assert(t@ =~= b@.drop_last());
                            } else {
                                assert(t@ =~= b@);
                            }
                        }
                        None
                    },
                }
            },
            3 => if b.len() % 2 == 0 { Some(TagValue::U16(read_u16s(b))) } else { None },
            4 => if b.len() % 4 == 0 { Some(TagValue::U32(read_u32s(b))) } else { None },
            5 => if b.len() % 8 == 0 { Some(TagValue::URational(read_ur64s(b))) } else { None },
            6 => Some(TagValue::I8(read_i8s(b))),
            7 => Some(TagValue::Undefined(slice_vec(b))),
            8 => if b.len() % 2 == 0 { Some(TagValue::I16(read_i16s(b))) } else { None },
            9 => if b.len() % 4 == 0 { Some(TagValue::I32(read_i32s(b))) } else { None },
            10 => if b.len() % 8 == 0 { Some(TagValue::IRational(read_ir64s(b))) } else { None },
            11 | 12 => Some(TagValue::Opaque(format, slice_vec(b))),
            _ => None,
        }
    }
}

fn bytes_prefix(b: &[u8], end: usize) -> (r: Vec<u8>)
    requires
        end <= b@.len(),
    ensures
        r@ == b@.take(end as int),
{
    let mut r: Vec<u8> = Vec::new();
    let mut i: usize = 0;
    while i < end
        invariant
            end <= b@.len(),
            0 <= i <= end,
            r@ == b@.take(i as int),
        decreases end - i,
    {
        r.push(b[i]);
        i = i + 1;
        assert(r@ =~= b@.take(i as int));
    }
    r
}

} // verus!
