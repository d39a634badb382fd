//! Free-text user comments with their character-code header.
use vstd::prelude::*;
use vstd::string::StringExecFns;
use vstd::string::StringSliceAdditionalSpecFns;
use vstd::utf8::{valid_utf8, decode_utf8, encode_utf8_valid_utf8, encode_utf8_decode_utf8};
use encoding::{DecoderTrap, EncoderTrap, Encoding};
use encoding::all::ISO_2022_JP;
use crate::text::{byte_hex, byte_hex_text};

verus! {

/// Text that a strict ISO-2022-JP decoder gives for some bytes, if they are valid.
pub uninterp spec fn jis_decoded(b: Seq<u8>) -> Option<Seq<char>>;

/// Bytes that a strict ISO-2022-JP encoder gives for some text, if it can encode every character.
pub uninterp spec fn jis_encoded(s: Seq<char>) -> Option<Seq<u8>>;

/// Text that a lossy UTF-8 decoder gives for some bytes.
pub uninterp spec fn utf8_lossy(b: Seq<u8>) -> Seq<char>;

/// Relies on encoding's `ISO_2022_JP.decode` with `DecoderTrap::Strict`: the decoded text, or an
/// error for bytes it cannot decode.
#[verifier::external_body]
fn decode_jis(b: &[u8]) -> (r: Option<String>)
    ensures
        r is Some <==> jis_decoded(b@) is Some,
        r matches Some(s) ==> Some(s@) == jis_decoded(b@),
{
    match ISO_2022_JP.decode(b, DecoderTrap::Strict) {
        Ok(s) => Some(s),
        Err(_) => None,
    }
}

/// Relies on encoding's `ISO_2022_JP.encode` with `EncoderTrap::Strict`: the encoded bytes, or an
/// error for text it cannot encode.
#[verifier::external_body]
fn encode_jis(s: &str) -> (r: Option<Vec<u8>>)
    ensures
        r is Some <==> jis_encoded(s@) is Some,
        r matches Some(b) ==> Some(b@) == jis_encoded(s@),
{
    match ISO_2022_JP.encode(s, EncoderTrap::Strict) {
        Ok(b) => Some(b),
        Err(_) => None,
    }
}

/// Relies on `String::from_utf8`: the text exactly when the bytes are valid UTF-8.
#[verifier::external_body]
pub(crate) fn utf8_text(b: &[u8]) -> (r: Option<String>)
    ensures
        r is Some <==> valid_utf8(b@),
        r matches Some(s) ==> s@ == decode_utf8(b@),
{
    match String::from_utf8(b.to_vec()) {
        Ok(s) => Some(s),
        Err(_) => None,
    }
}

/// Relies on `String::from_utf8_lossy`: valid UTF-8 is decoded as it is, and invalid sequences
/// become replacement characters.
#[verifier::external_body]
fn utf8_lossy_text(b: &[u8]) -> (r: String)
    ensures
        r@ == utf8_lossy(b@),
        valid_utf8(b@) ==> r@ == decode_utf8(b@),
{
    String::from_utf8_lossy(b).to_string()
}

/// Bytes as `0x41, 0x42, ...`.
pub open spec fn hex_list(b: Seq<u8>) -> Seq<char>
    decreases b.len(),
{
    if b.len() == 0 {
        seq![]
    } else if b.len() == 1 {
        seq!['0', 'x'] + byte_hex(b[0])
    } else {
        hex_list(b.drop_last()) + seq![',', ' ', '0', 'x'] + byte_hex(b.last())
    }
}

/// Bytes as `0x41, 0x42, ...`, two upper-case digits each.
pub fn to_hex(v: &[u8]) -> (r: String)
    ensures
        r@ == hex_list(v@),
{
    let mut s = String::new();
    let mut i: usize = 0;
    while i < v.len()
        invariant
            0 <= i <= v@.len(),
            s@ == hex_list(v@.take(i as int)),
        decreases v@.len() - i,
    {
        proof {
            reveal_strlit("0x");
            reveal_strlit(", 0x");
            assert(v@.take(i as int + 1).drop_last() =~= v@.take(i as int));
        }
        if i == 0 {
            s.append("0x");
        } else {
            s.append(", 0x");
        }
        let h = byte_hex_text(v[i]);
        s.append(h.as_str());
        proof {
            if i == 0 {
                assert(v@.take(1) =~= seq![v@[0]]);
            }
            assert(s@ =~= hex_list(v@.take(i as int + 1)));
        }
        i = i + 1;
    }
    assert(v@.take(v@.len() as int) =~= v@);
    s
}

/// The eight bytes read as one big-endian number.
pub open spec fn be64(s: Seq<u8>) -> u64 {
    ((s[0] as u64) << 56u64) | ((s[1] as u64) << 48u64) | ((s[2] as u64) << 40u64) | ((s[3] as u64) << 32u64)
        | ((s[4] as u64) << 24u64) | ((s[5] as u64) << 16u64) | ((s[6] as u64) << 8u64) | (s[7] as u64)
}

pub const ASCII_CODE: u64 = 0x4153434949000000;

pub const JIS_CODE: u64 = 0x4A49530000000000;

pub const UNICODE_CODE: u64 = 0x556E69636F646500;

/// The character code that the eight header bytes of a user comment name.
#[derive(Clone, Copy, Debug, PartialEq, Eq)]
pub enum UserCommentCode {
    ASCII,
    JIS,
    Unicode,
    Undefined([u8; 8]),
}

impl UserCommentCode {
    /// The header as one big-endian number.
    pub open spec fn value(&self) -> u64 {
        match self {
            UserCommentCode::ASCII => ASCII_CODE,
            UserCommentCode::JIS => JIS_CODE,
            UserCommentCode::Unicode => UNICODE_CODE,
            UserCommentCode::Undefined(a) => be64(a@),
        }
    }

    /// The named code a header number stands for, if any.
    pub open spec fn named_of(v: u64) -> Option<UserCommentCode> {
        if v == ASCII_CODE {
            Some(UserCommentCode::ASCII)
        } else if v == JIS_CODE {
            Some(UserCommentCode::JIS)
        } else if v == UNICODE_CODE {
            Some(UserCommentCode::Unicode)
        } else {
            None
        }
    }

    /// A header decodes to `c`: the named code for a known number, undefined otherwise.
    pub open spec fn decodes_to(v: u64, c: UserCommentCode) -> bool {
        &&& c.value() == v
        &&& Self::named_of(v) is Some ==> Some(c) == Self::named_of(v)
        &&& Self::named_of(v) is None ==> c is Undefined
    }

    pub open spec fn text(&self) -> Seq<char> {
        match self {
            UserCommentCode::ASCII => "ASCII"@,
            UserCommentCode::JIS => "JIS"@,
            UserCommentCode::Unicode => "Unicode"@,
            UserCommentCode::Undefined(_) => "Undefined(...)"@,
        }
    }

    pub fn to_string(&self) -> (r: String)
        ensures
            r@ == self.text(),
    {
        match self {
            UserCommentCode::ASCII => String::from_str("ASCII"),
            UserCommentCode::JIS => String::from_str("JIS"),
            UserCommentCode::Unicode => String::from_str("Unicode"),
            UserCommentCode::Undefined(_) => String::from_str("Undefined(...)"),
        }
    }

    pub fn from_u64(value: u64) -> (r: Self)
        ensures
            Self::decodes_to(value, r),
    {
        if value == ASCII_CODE {
            UserCommentCode::ASCII
        } else if value == JIS_CODE {
            UserCommentCode::JIS
        } else if value == UNICODE_CODE {
            UserCommentCode::Unicode
        } else {
            let a: [u8; 8] = [
                (value >> 56u64) as u8,
                (value >> 48u64) as u8,
                (value >> 40u64) as u8,
                (value >> 32u64) as u8,
                (value >> 24u64) as u8,
                (value >> 16u64) as u8,
                (value >> 8u64) as u8,
                value as u8,
            ];
            assert(((((value >> 56u64) as u8) as u64) << 56u64) | ((((value >> 48u64) as u8) as u64) << 48u64)
                | ((((value >> 40u64) as u8) as u64) << 40u64) | ((((value >> 32u64) as u8) as u64) << 32u64)
                | ((((value >> 24u64) as u8) as u64) << 24u64) | ((((value >> 16u64) as u8) as u64) << 16u64)
                | ((((value >> 8u64) as u8) as u64) << 8u64) | ((value as u8) as u64) == value) by (bit_vector);
            UserCommentCode::Undefined(a)
        }
    }

    pub fn to_u64(&self) -> (r: u64)
        ensures
            r == self.value(),
    {
        match self {
            UserCommentCode::ASCII => ASCII_CODE,
            UserCommentCode::JIS => JIS_CODE,
            UserCommentCode::Unicode => UNICODE_CODE,
            UserCommentCode::Undefined(a) => array_be64(a),
        }
    }

    /// Reads the eight header bytes.
    pub fn from_array(v: &[u8; 8]) -> (r: Self)
        ensures
            Self::decodes_to(be64(v@), r),
            r matches UserCommentCode::Undefined(a) ==> a@ == v@,
    {
        let n = array_be64(v);
        if n == ASCII_CODE {
            UserCommentCode::ASCII
        } else if n == JIS_CODE {
            UserCommentCode::JIS
        } else if n == UNICODE_CODE {
            UserCommentCode::Unicode
        } else {
            UserCommentCode::Undefined(*v)
        }
    }

    /// The eight header bytes.
    pub open spec fn to_array_spec(&self) -> Seq<u8> {
        match self {
            UserCommentCode::Undefined(a) => a@,
            _ => seq![
                (self.value() >> 56u64) as u8,
                (self.value() >> 48u64) as u8,
                (self.value() >> 40u64) as u8,
                (self.value() >> 32u64) as u8,
                (self.value() >> 24u64) as u8,
                (self.value() >> 16u64) as u8,
                (self.value() >> 8u64) as u8,
                self.value() as u8,
            ],
        }
    }

    /// The eight header bytes.
    pub fn to_array(&self) -> (r: [u8; 8])
        ensures
            be64(r@) == self.value(),
            r@ == self.to_array_spec(),
    {
        match self {
            UserCommentCode::ASCII => u64_bytes(ASCII_CODE),
            UserCommentCode::JIS => u64_bytes(JIS_CODE),
            UserCommentCode::Unicode => u64_bytes(UNICODE_CODE),
            UserCommentCode::Undefined(a) => *a,
        }
    }

    /// The named codes with their header numbers, and the code itself at the end when it is
    /// undefined.
    pub fn all(&self) -> (r: Vec<(u64, Self)>)
        ensures
            r@.len() == (if self is Undefined { 4nat } else { 3nat }),
            r@[0] == (ASCII_CODE, UserCommentCode::ASCII),
            r@[1] == (JIS_CODE, UserCommentCode::JIS),
            r@[2] == (UNICODE_CODE, UserCommentCode::Unicode),
            self is Undefined ==> r@[3] == (self.value(), *self),
    {
        let mut r: Vec<(u64, Self)> = Vec::new();
        r.push((ASCII_CODE, UserCommentCode::ASCII));
        r.push((JIS_CODE, UserCommentCode::JIS));
        r.push((UNICODE_CODE, UserCommentCode::Unicode));
        if let UserCommentCode::Undefined(a) = self {
            r.push((array_be64(a), UserCommentCode::Undefined(*a)));
        }
        r
    }
}

fn array_be64(a: &[u8; 8]) -> (r: u64)
    ensures
        r == be64(a@),
{
    ((a[0] as u64) << 56u64) | ((a[1] as u64) << 48u64) | ((a[2] as u64) << 40u64) | ((a[3] as u64) << 32u64)
        | ((a[4] as u64) << 24u64) | ((a[5] as u64) << 16u64) | ((a[6] as u64) << 8u64) | (a[7] as u64)
}

fn u64_bytes(value: u64) -> (r: [u8; 8])
    ensures
        be64(r@) == value,
        r@ == seq![
            (value >> 56u64) as u8,
            (value >> 48u64) as u8,
            (value >> 40u64) as u8,
            (value >> 32u64) as u8,
            (value >> 24u64) as u8,
            (value >> 16u64) as u8,
            (value >> 8u64) as u8,
            value as u8,
        ],
{
    let a: [u8; 8] = [
        (value >> 56u64) as u8,
        (value >> 48u64) as u8,
        (value >> 40u64) as u8,
        (value >> 32u64) as u8,
        (value >> 24u64) as u8,
        (value >> 16u64) as u8,
        (value >> 8u64) as u8,
        value as u8,
    ];
    assert(((((value >> 56u64) as u8) as u64) << 56u64) | ((((value >> 48u64) as u8) as u64) << 48u64)
        | ((((value >> 40u64) as u8) as u64) << 40u64) | ((((value >> 32u64) as u8) as u64) << 32u64)
        | ((((value >> 24u64) as u8) as u64) << 24u64) | ((((value >> 16u64) as u8) as u64) << 16u64)
        | ((((value >> 8u64) as u8) as u64) << 8u64) | ((value as u8) as u64) == value) by (bit_vector);
    assert(a@ =~= seq![
        (value >> 56u64) as u8,
        (value >> 48u64) as u8,
        (value >> 40u64) as u8,
        (value >> 32u64) as u8,
        (value >> 24u64) as u8,
        (value >> 16u64) as u8,
        (value >> 8u64) as u8,
        value as u8,
    ]);
    a
}

/// A free-text comment: a header that names the character code, then the text in that code.
#[derive(Clone, Debug, PartialEq, Eq)]
pub struct UserComment {
    pub code: UserCommentCode,
    pub data: Vec<u8>,
    pub decoded: String,
}

/// The bytes of `v` from `from` on.
fn bytes_from(v: &[u8], from: usize) -> (r: Vec<u8>)
    requires
        from <= v@.len(),
    ensures
        r@ == v@.skip(from as int),
{
    let mut r: Vec<u8> = Vec::new();
    let mut i: usize = from;
    while i < v.len()
        invariant
            from <= i <= v@.len(),
            r@ == v@.subrange(from as int, i as int),
        decreases v@.len() - i,
    {
        r.push(v[i]);
        i = i + 1;
        assert(r@ =~= v@.subrange(from as int, i as int));
    }
    assert(v@.subrange(from as int, v@.len() as int) =~= v@.skip(from as int));
    r
}

/// `a` followed by `b`.
fn concat_bytes(a: &[u8], b: &[u8]) -> (r: Vec<u8>)
    ensures
        r@ == a@ + b@,
{
    let mut r = bytes_from(a, 0);
    let mut i: usize = 0;
    assert(a@.skip(0) =~= a@);
    while i < b.len()
        invariant
            0 <= i <= b@.len(),
            r@ == a@ + b@.take(i as int),
        decreases b@.len() - i,
    {
        r.push(b[i]);
        i = i + 1;
        assert(r@ =~= a@ + b@.take(i as int));
    }
    assert(b@.take(b@.len() as int) =~= b@);
    r
}

impl UserComment {
    /// How the text after the header reads under a code. Text that does not decode is shown as
    /// its bytes in hexadecimal.
    pub open spec fn decoded_text(code: UserCommentCode, body: Seq<u8>) -> Seq<char> {
        match code {
            UserCommentCode::ASCII => if valid_utf8(body) {
                decode_utf8(body)
            } else {
                utf8_lossy(body)
            },
            UserCommentCode::JIS => if jis_decoded(body) is Some {
                jis_decoded(body).unwrap()
            } else {
                hex_list(body)
            },
            UserCommentCode::Unicode => if valid_utf8(body) {
                decode_utf8(body)
            } else {
                hex_list(body)
            },
            UserCommentCode::Undefined(_) => hex_list(body),
        }
    }

    /// How a text is stored under a code: ISO-2022-JP for the JIS code where it can be encoded,
    /// UTF-8 otherwise.
    pub open spec fn encoded_text(code: UserCommentCode, s: &str) -> Seq<u8> {
        if code is JIS && jis_encoded(s@) is Some {
            jis_encoded(s@).unwrap()
        } else {
            s.spec_bytes()
        }
    }

    /// `c` is what reading the stored bytes `v` gives.
    pub open spec fn reads(v: Seq<u8>, c: UserComment) -> bool {
        &&& UserCommentCode::decodes_to(be64(v.take(8)), c.code)
        &&& c.data@ == v
        &&& c.decoded@ == Self::decoded_text(c.code, v.skip(8))
    }

    /// Reads a stored comment; fewer than eight bytes give nothing.
    pub fn from_vec(v: &[u8]) -> (r: Option<Self>)
        ensures
            r is Some <==> v@.len() >= 8,
            r matches Some(c) ==> Self::reads(v@, c),
    {
        if v.len() < 8 {
            return None;
        }
        let head: [u8; 8] = [v[0], v[1], v[2], v[3], v[4], v[5], v[6], v[7]];
        assert(head@ =~= v@.take(8));
        let code = UserCommentCode::from_array(&head);
        let body = bytes_from(v, 8);
        let decoded = match code {
            UserCommentCode::ASCII => utf8_lossy_text(body.as_slice()),
            UserCommentCode::JIS => match decode_jis(body.as_slice()) {
                Some(s) => s,
                None => to_hex(body.as_slice()),
            },
            UserCommentCode::Unicode => match utf8_text(body.as_slice()) {
                Some(s) => s,
                None => to_hex(body.as_slice()),
            },
            UserCommentCode::Undefined(_) => to_hex(body.as_slice()),
        };
        let data = bytes_from(v, 0);
        assert(v@.skip(0) =~= v@);
        Some(UserComment { code, data, decoded })
    }

    /// A comment holding `s` under `code`.
    pub fn from_str(s: &str, code: &UserCommentCode) -> (r: Self)
        ensures
            r.code == *code,
            r.decoded@ == s@,
            r.data@ == code.to_array_spec() + Self::encoded_text(*code, s),
    {
        let head = code.to_array();
        let text_bytes: Vec<u8> = match code {
            UserCommentCode::JIS => match encode_jis(s) {
                Some(b) => b,
                None => bytes_from(s.as_bytes(), 0),
            },
            _ => bytes_from(s.as_bytes(), 0),
        };
        proof {
            assert(s.spec_bytes().skip(0) =~= s.spec_bytes());
        }
        let data = concat_bytes(&head, text_bytes.as_slice());
        UserComment { code: *code, data, decoded: String::from_str(s) }
    }
}

/// A comment written under the ASCII or Unicode code reads back as that code and that text.
pub proof fn lemma_comment_round_trip(s: &str, code: UserCommentCode, c: UserComment)
    requires
        code is ASCII || code is Unicode,
        UserComment::reads(code.to_array_spec() + UserComment::encoded_text(code, s), c),
    ensures
        c.code == code,
        c.decoded@ == s@,
{
    let x = code.value();
    let v = code.to_array_spec() + UserComment::encoded_text(code, s);
    assert(v.take(8) =~= code.to_array_spec());
    assert(v.skip(8) =~= s.spec_bytes());
    assert(((((x >> 56u64) as u8) as u64) << 56u64) | ((((x >> 48u64) as u8) as u64) << 48u64)
        | ((((x >> 40u64) as u8) as u64) << 40u64) | ((((x >> 32u64) as u8) as u64) << 32u64)
        | ((((x >> 24u64) as u8) as u64) << 24u64) | ((((x >> 16u64) as u8) as u64) << 16u64)
        | ((((x >> 8u64) as u8) as u64) << 8u64) | ((x as u8) as u64) == x) by (bit_vector);
    assert(be64(code.to_array_spec()) == x);
    encode_utf8_valid_utf8(s@);
    encode_utf8_decode_utf8(s@);
}

} // verus!
