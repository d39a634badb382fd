//! Decimal and hexadecimal text of numbers and lists, with their specifications.
use vstd::prelude::*;
use vstd::string::StringExecFns;
use vstd::string::StrSliceExecFns;

verus! {

/// The character of a decimal or hexadecimal digit below sixteen.
pub open spec fn digit_char(d: nat, upper: bool) -> char {
    if d < 10 {
        (('0' as nat) + d) as char
    } else if upper {
        (('A' as nat) + d - 10) as char
    } else {
        (('a' as nat) + d - 10) as char
    }
}

/// The digits of `n` written in base `b`, most significant first, without leading zeros.
pub open spec fn digits_in(n: nat, hexa: bool, upper: bool) -> Seq<char>
    decreases n,
{
    if hexa {
        if n < 16 {
            seq![digit_char(n, upper)]
        } else {
            digits_in(n / 16, hexa, upper).push(digit_char(n % 16, upper))
        }
    } else {
        if n < 10 {
            seq![digit_char(n, upper)]
        } else {
            digits_in(n / 10, hexa, upper).push(digit_char(n % 10, upper))
        }
    }
}

/// Decimal text of a natural number.
pub open spec fn dec(n: nat) -> Seq<char> {
    digits_in(n, false, false)
}

/// Decimal text of an integer, with a leading minus sign when negative.
pub open spec fn dec_int(i: int) -> Seq<char> {
    if i < 0 {
        seq!['-'] + dec((-i) as nat)
    } else {
        dec(i as nat)
    }
}

/// Lower-case hexadecimal text of a natural number.
pub open spec fn hex(n: nat) -> Seq<char> {
    digits_in(n, true, false)
}

/// How many decimal digits `n` has.
pub open spec fn digit_count(n: nat) -> nat
    decreases n,
{
    if n < 10 {
        1
    } else {
        1 + digit_count(n / 10)
    }
}

/// Number of decimal digits of a positive value; zero and negative values count as one digit.
pub fn num_digits(n: i32) -> (r: usize)
    ensures
        n > 0 ==> r == digit_count(n as nat),
        n <= 0 ==> r == 1,
{
    if n <= 0 {
        return 1;
    }
    let mut m: i32 = n;
    let mut count: usize = 1;
    while m >= 10
        invariant
            0 < m <= n,
            1 <= count,
            count + m <= n + 1,
            count + digit_count(m as nat) == 1 + digit_count(n as nat),
        decreases m,
    {
        proof {
            assert(digit_count(m as nat) == 1 + digit_count((m / 10) as nat));
        }
        m = m / 10;
        count = count + 1;
    }
    count
}

fn digit_str(d: u64, upper: bool) -> (r: &'static str)
    requires
        d < 16,
    ensures
        r@ == seq![digit_char(d as nat, upper)],
{
    proof {
        reveal_strlit("0");
        reveal_strlit("1");
        reveal_strlit("2");
        reveal_strlit("3");
        reveal_strlit("4");
        reveal_strlit("5");
        reveal_strlit("6");
        reveal_strlit("7");
        reveal_strlit("8");
        reveal_strlit("9");
        reveal_strlit("a");
        reveal_strlit("b");
        reveal_strlit("c");
        reveal_strlit("d");
        reveal_strlit("e");
        reveal_strlit("f");
        reveal_strlit("A");
        reveal_strlit("B");
        reveal_strlit("C");
        reveal_strlit("D");
        reveal_strlit("E");
        reveal_strlit("F");
    }
    match d {
        0 => "0",
        1 => "1",
        2 => "2",
        3 => "3",
        4 => "4",
        5 => "5",
        6 => "6",
        7 => "7",
        8 => "8",
        9 => "9",
        10 => if upper { "A" } else { "a" },
        11 => if upper { "B" } else { "b" },
        12 => if upper { "C" } else { "c" },
        13 => if upper { "D" } else { "d" },
        14 => if upper { "E" } else { "e" },
        _ => if upper { "F" } else { "f" },
    }
}

fn digits_text(n: u64, hexa: bool, upper: bool) -> (r: String)
    ensures
        r@ == digits_in(n as nat, hexa, upper),
    decreases n,
{
    let b: u64 = if hexa { 16 } else { 10 };
    if n < b {
        String::from_str(digit_str(n, upper))
    } else {
        let mut s = digits_text(n / b, hexa, upper);
        s.append(digit_str(n % b, upper));
        s
    }
}

/// Decimal text of an unsigned number.
pub fn decimal_text(n: u64) -> (r: String)
    ensures
        r@ == dec(n as nat),
{
    digits_text(n, false, false)
}

/// Decimal text of a signed number.
pub fn signed_text(i: i64) -> (r: String)
    ensures
        r@ == dec_int(i as int),
{
    if i < 0 {
        let m: u64 = if i == i64::MIN { 9223372036854775808u64 } else { (-i) as u64 };
        let mut s = String::from_str("-");
        let t = decimal_text(m);
        s.append(t.as_str());
        proof {
            reveal_strlit("-");
        }
        s
    } else {
        decimal_text(i as u64)
    }
}

/// Lower-case hexadecimal text of an unsigned number.
pub fn hex_text(n: u64) -> (r: String)
    ensures
        r@ == hex(n as nat),
{
    digits_text(n, true, false)
}

/// Exactly two upper-case hexadecimal digits of a byte.
pub open spec fn byte_hex(b: u8) -> Seq<char> {
    seq![digit_char((b / 16) as nat, true), digit_char((b % 16) as nat, true)]
}

pub fn byte_hex_text(b: u8) -> (r: String)
    ensures
        r@ == byte_hex(b),
{
    let mut s = String::from_str(digit_str((b / 16) as u64, true));
    s.append(digit_str((b % 16) as u64, true));
    s
}

/// The numbers of `s` in decimal, separated by a comma and a space.
pub open spec fn join_dec(s: Seq<int>) -> Seq<char>
    decreases s.len(),
{
    if s.len() == 0 {
        seq![]
    } else if s.len() == 1 {
        dec_int(s[0])
    } else {
        join_dec(s.drop_last()) + seq![',', ' '] + dec_int(s.last())
    }
}

/// A list of numbers in brackets, the way a list prints for debugging: `[1, 2, 3]`.
pub open spec fn list_dec(s: Seq<int>) -> Seq<char> {
    seq!['['] + join_dec(s) + seq![']']
}

/// Text of a list of numbers, `[1, 2, 3]`.
pub fn list_text(v: &[i64]) -> (r: String)
    ensures
        r@ == list_dec(v@.map_values(|x: i64| x as int)),
{
    let ghost w = v@.map_values(|x: i64| x as int);
    let mut s = String::from_str("[");
    let mut i: usize = 0;
    proof {
        reveal_strlit("[");
        assert(join_dec(w.take(0)) == Seq::<char>::empty());
        assert(s@ =~= seq!['['] + join_dec(w.take(0)));
    }
    while i < v.len()
        invariant
            0 <= i <= v@.len(),
            w == v@.map_values(|x: i64| x as int),
            s@ == seq!['['] + join_dec(w.take(i as int)),
        decreases v@.len() - i,
    {
        proof {
            reveal_strlit("[");
            reveal_strlit(", ");
            assert(w.take(i as int + 1).drop_last() =~= w.take(i as int));
        }
        if i > 0 {
            s.append(", ");
        }
        let t = signed_text(v[i]);
        s.append(t.as_str());
        proof {
            if i == 0 {
                assert(w.take(1) =~= seq![w[0]]);
            }
            assert(s@ =~= seq!['['] + join_dec(w.take(i as int + 1)));
        }
        i = i + 1;
    }
    s.append("]");
    proof {
        reveal_strlit("]");
        reveal_strlit("[");
        assert(w.take(v@.len() as int) =~= w);
    }
    s
}

/// Text of a list of numbers without brackets, `1, 2, 3`.
pub fn join_text(v: &[i64]) -> (r: String)
    ensures
        r@ == join_dec(v@.map_values(|x: i64| x as int)),
{
    let ghost w = v@.map_values(|x: i64| x as int);
    let mut s = String::new();
    let mut i: usize = 0;
    assert(w.take(0) =~= Seq::<int>::empty());
    while i < v.len()
        invariant
            0 <= i <= v@.len(),
            w == v@.map_values(|x: i64| x as int),
            s@ == join_dec(w.take(i as int)),
        decreases v@.len() - i,
    {
        proof {
            reveal_strlit(", ");
            assert(w.take(i as int + 1).drop_last() =~= w.take(i as int));
        }
        if i > 0 {
            s.append(", ");
        }
        let t = signed_text(v[i]);
        s.append(t.as_str());
        proof {
            if i == 0 {
                assert(w.take(1) =~= seq![w[0]]);
            }
            assert(s@ =~= join_dec(w.take(i as int + 1)));
        }
        i = i + 1;
    }
    assert(w.take(v@.len() as int) =~= w);
    s
}

/// Widens a list of small unsigned numbers for printing.
pub fn widen_u16s(v: &[u16]) -> (r: Vec<i64>)
    ensures
        r@.map_values(|x: i64| x as int) == v@.map_values(|x: u16| x as int),
{
    let mut r: Vec<i64> = Vec::new();
    let mut i: usize = 0;
    while i < v.len()
        invariant
            0 <= i <= v@.len(),
            r@.len() == i,
            forall|j: int| 0 <= j < i ==> r@[j] as int == v@[j] as int,
        decreases v@.len() - i,
    {
        r.push(v[i] as i64);
        i = i + 1;
    }
    assert(r@.map_values(|x: i64| x as int) =~= v@.map_values(|x: u16| x as int));
    r
}

/// Whether two texts hold the same characters.
pub fn str_eq(a: &str, b: &str) -> (r: bool)
    ensures
        r == (a@ == b@),
{
    let n = a.unicode_len();
    if n != b.unicode_len() {
        return false;
    }
    let mut i: usize = 0;
    while i < n
        invariant
            n == a@.len() == b@.len(),
            0 <= i <= n,
            forall|j: int| 0 <= j < i ==> a@[j] == b@[j],
        decreases n - i,
    {
        if a.get_char(i) != b.get_char(i) {
            return false;
        }
        i = i + 1;
    }
    assert(a@ =~= b@);
    true
}

} // verus!
