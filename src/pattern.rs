//! The packed colour filter array pattern and the channel layout of compressed data.
use vstd::prelude::*;
use vstd::string::StringExecFns;
use crate::codec::{CFA, ComponentsConfiguration};
use crate::text::{dec, decimal_text};

verus! {

/// The big-endian 16-bit number in two bytes.
pub open spec fn be16(hi: u8, lo: u8) -> nat {
    hi as nat * 256 + lo as nat
}

/// A single code decodes to `c`: the named value for a known code, an unknown value otherwise.
pub open spec fn cfa_decodes(code: u16, c: CFA) -> bool {
    &&& c.codes() == seq![code]
    &&& CFA::named_of(code) is Some ==> Some(c) == CFA::named_of(code)
    &&& CFA::named_of(code) is None ==> c is UnknownValue
}

/// Two cells hold the same value: the same codes, both named or both unknown.
pub open spec fn same_cell(a: CFA, b: CFA) -> bool {
    a.codes() == b.codes() && (a is UnknownValue <==> b is UnknownValue)
}

/// A cell that fits one byte of the packed form.
pub open spec fn byte_cell(c: CFA) -> bool {
    c.codes().len() == 1 && c.codes()[0] < 256
}

/// The colour filter array pattern of a sensor: `row` by `column` cells, row after row.
#[derive(Clone, Debug, PartialEq, Eq)]
pub struct CFAPattern {
    pub row: u16,
    pub column: u16,
    pub cfa: Vec<CFA>,
}

impl CFAPattern {
    /// The cells fill the grid exactly and each has a code.
    pub open spec fn wf(&self) -> bool {
        &&& self.cfa@.len() == self.row as nat * self.column as nat
        &&& forall|i: int| 0 <= i < self.cfa@.len() ==> (#[trigger] self.cfa@[i]).codes().len() >= 1
    }

    /// The packed form: row and column count as big-endian 16-bit numbers, then one byte per cell.
    pub open spec fn packed(&self) -> Seq<u8> {
        seq![(self.row / 256) as u8, (self.row % 256) as u8, (self.column / 256) as u8, (self.column % 256) as u8]
            + self.cfa@.map_values(|c: CFA| c.codes()[0] as u8)
    }

    /// Whether `v` has the length that its own row and column counts announce.
    pub open spec fn length_agrees(v: Seq<u8>) -> bool {
        v.len() >= 4 && v.len() == 4 + be16(v[0], v[1]) * be16(v[2], v[3])
    }

    /// `p` is what unpacking `v` gives.
    pub open spec fn unpacks(v: Seq<u8>, p: CFAPattern) -> bool {
        &&& p.row as nat == be16(v[0], v[1])
        &&& p.column as nat == be16(v[2], v[3])
        &&& p.cfa@.len() == v.len() - 4
        &&& forall|i: int| 0 <= i < p.cfa@.len() ==> cfa_decodes(v[4 + i] as u16, #[trigger] p.cfa@[i])
    }

    /// Unpacks a pattern; the length must agree with the announced grid.
    pub fn from_vec(v: &[u8]) -> (r: Option<Self>)
        ensures
            r is Some <==> Self::length_agrees(v@),
            r matches Some(p) ==> Self::unpacks(v@, p),
    {
        let n = v.len();
        if n < 4 {
            return None;
        }
        let row: u16 = v[0] as u16 * 256 + v[1] as u16;
        let column: u16 = v[2] as u16 * 256 + v[3] as u16;
        assert(row as u64 * column as u64 <= 65535 * 65535) by (nonlinear_arith)
            requires row <= 65535, column <= 65535;
        let cells: u64 = row as u64 * column as u64;
        if n as u64 != 4 + cells {
            return None;
        }
        let mut cfa: Vec<CFA> = Vec::new();
        let mut i: usize = 4;
        while i < n
            invariant
                4 <= i <= n,
                n == v@.len(),
                cfa@.len() == i - 4,
                forall|j: int| 0 <= j < cfa@.len() ==> cfa_decodes(v@[4 + j] as u16, #[trigger] cfa@[j]),
            decreases n - i,
        {
            let c = CFA::from_u16(v[i] as u16);
            cfa.push(c);
            i = i + 1;
        }
        Some(CFAPattern { row, column, cfa })
    }

    /// Packs the pattern.
    pub fn to_vec(&self) -> (r: Vec<u8>)
        requires
            self.wf(),
        ensures
            r@ == self.packed(),
    {
        let cells: usize = self.cfa.len();
        let mut v: Vec<u8> = Vec::new();
        v.push((self.row / 256) as u8);
        v.push((self.row % 256) as u8);
        v.push((self.column / 256) as u8);
        v.push((self.column % 256) as u8);
        let mut i: usize = 0;
        while i < cells
            invariant
                cells == self.cfa@.len(),
                self.wf(),
                0 <= i <= cells,
                v@ == seq![(self.row / 256) as u8, (self.row % 256) as u8, (self.column / 256) as u8, (self.column % 256) as u8]
                    + self.cfa@.take(i as int).map_values(|c: CFA| c.codes()[0] as u8),
            decreases cells - i,
        {
            let code = self.cfa[i].to_u16();
            v.push(code as u8);
            proof {
                assert(self.cfa@.take(i as int + 1) =~= self.cfa@.take(i as int).push(self.cfa@[i as int]));
            }
            i = i + 1;
            proof {
                assert(v@ =~= seq![(self.row / 256) as u8, (self.row % 256) as u8, (self.column / 256) as u8, (self.column % 256) as u8]
                    + self.cfa@.take(i as int).map_values(|c: CFA| c.codes()[0] as u8));
            }
        }
        assert(self.cfa@.take(cells as int) =~= self.cfa@);
        v
    }
}

/// Unpacking a packed pattern gives the same grid and the same cells back.
pub proof fn lemma_pattern_round_trip(p: CFAPattern)
    requires
        p.wf(),
        forall|i: int| 0 <= i < p.cfa@.len() ==> byte_cell(#[trigger] p.cfa@[i]),
        forall|i: int| 0 <= i < p.cfa@.len() ==> cfa_decodes((#[trigger] p.cfa@[i]).codes()[0], p.cfa@[i]),
    ensures
        CFAPattern::length_agrees(p.packed()),
        be16(p.packed()[0], p.packed()[1]) == p.row,
        be16(p.packed()[2], p.packed()[3]) == p.column,
        forall|i: int| 0 <= i < p.cfa@.len() ==> #[trigger] p.packed()[4 + i] as u16 == p.cfa@[i].codes()[0],
        forall|i: int| 0 <= i < p.cfa@.len() ==> cfa_decodes(#[trigger] p.packed()[4 + i] as u16, p.cfa@[i]),
{
    let w = p.packed();
    assert(w.len() == 4 + p.cfa@.len());
    assert(be16(w[0], w[1]) == p.row) by (nonlinear_arith)
        requires w[0] == (p.row / 256) as u8, w[1] == (p.row % 256) as u8;
    assert(be16(w[2], w[3]) == p.column) by (nonlinear_arith)
        requires w[2] == (p.column / 256) as u8, w[3] == (p.column % 256) as u8;
    assert forall|i: int| 0 <= i < p.cfa@.len() implies #[trigger] w[4 + i] as u16 == p.cfa@[i].codes()[0] by {
        assert(byte_cell(p.cfa@[i]));
    }
}

/// A cell's name: the colour, or the raw code of an unknown cell.
pub open spec fn cell_name(c: CFA) -> Seq<char> {
    match c {
        CFA::Red => "Red"@,
        CFA::Green => "Green"@,
        CFA::Blue => "Blue"@,
        CFA::Cyan => "Cyan"@,
        CFA::Magenta => "Magenta"@,
        CFA::Yellow => "Yellow"@,
        CFA::White => "White"@,
        CFA::UnknownValue(v) => dec(v@[0] as nat),
    }
}

/// Cell names separated by a comma and a space.
pub open spec fn join_names(s: Seq<CFA>) -> Seq<char>
    decreases s.len(),
{
    if s.len() == 0 {
        seq![]
    } else if s.len() == 1 {
        cell_name(s[0])
    } else {
        join_names(s.drop_last()) + seq![',', ' '] + cell_name(s.last())
    }
}

fn cell_text(c: &CFA) -> (r: String)
    requires
        c.codes().len() >= 1,
    ensures
        r@ == cell_name(*c),
{
    match c {
        CFA::Red => String::from_str("Red"),
        CFA::Green => String::from_str("Green"),
        CFA::Blue => String::from_str("Blue"),
        CFA::Cyan => String::from_str("Cyan"),
        CFA::Magenta => String::from_str("Magenta"),
        CFA::Yellow => String::from_str("Yellow"),
        CFA::White => String::from_str("White"),
        CFA::UnknownValue(v) => decimal_text(v[0] as u64),
    }
}

/// Row count, column count and the cell names, as text.
pub fn cfa_str(c: &CFAPattern) -> (r: (String, String, String))
    requires
        c.wf(),
    ensures
        r.0@ == dec(c.row as nat),
        r.1@ == dec(c.column as nat),
        r.2@ == join_names(c.cfa@),
{
    let rows = decimal_text(c.row as u64);
    let columns = decimal_text(c.column as u64);
    let mut s = String::new();
    let mut i: usize = 0;
    assert(c.cfa@.take(0) =~= Seq::<CFA>::empty());
    while i < c.cfa.len()
        invariant
            c.wf(),
            0 <= i <= c.cfa@.len(),
            s@ == join_names(c.cfa@.take(i as int)),
        decreases c.cfa@.len() - i,
    {
        proof {
            reveal_strlit(", ");
            assert(c.cfa@.take(i as int + 1).drop_last() =~= c.cfa@.take(i as int));
        }
        if i > 0 {
            s.append(", ");
        }
        let t = cell_text(&c.cfa[i]);
        s.append(t.as_str());
        proof {
            if i == 0 {
                assert(c.cfa@.take(1) =~= seq![c.cfa@[0]]);
            }
            assert(s@ =~= join_names(c.cfa@.take(i as int + 1)));
        }
        i = i + 1;
    }
    assert(c.cfa@.take(c.cfa@.len() as int) =~= c.cfa@);
    (rows, columns, s)
}

/// Unpacks the four channel meanings of the compressed data; any other length gives nothing.
pub fn load_components_configuration(v: &[u8]) -> (r: Option<[ComponentsConfiguration; 4]>)
    ensures
        r is Some <==> v@.len() == 4,
        r matches Some(a) ==> forall|i: int| 0 <= i < 4 ==> (#[trigger] a@[i]).codes() == seq![v@[i] as u16],
        r matches Some(a) ==> forall|i: int| 0 <= i < 4 && ComponentsConfiguration::named_of(v@[i] as u16) is Some
            ==> Some(#[trigger] a@[i]) == ComponentsConfiguration::named_of(v@[i] as u16),
{
    if v.len() != 4 {
        return None;
    }
    let a = ComponentsConfiguration::from_u16(v[0] as u16);
    let b = ComponentsConfiguration::from_u16(v[1] as u16);
    let c = ComponentsConfiguration::from_u16(v[2] as u16);
    let d = ComponentsConfiguration::from_u16(v[3] as u16);
    let r = [a, b, c, d];
    assert(r@[0] == a && r@[1] == b && r@[2] == c && r@[3] == d);
    Some(r)
}

} // verus!
