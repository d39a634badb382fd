//! The store of tags outside the schema, listed in key order.
use vstd::prelude::*;
use vstd::string::StringExecFns;
use crate::tag::{ExifTagGroup, TagKey, key_rank, key_rank_of};
use crate::text::{hex, hex_text};

verus! {

/// No two entries share a key.
pub open spec fn unique_keys(s: Seq<(TagKey, String)>) -> bool {
    forall|a: int, b: int| 0 <= a < b < s.len() ==> (#[trigger] s[a]).0 != (#[trigger] s[b]).0
}

/// The text stored under `k`: the last entry with that key.
pub open spec fn vault_lookup(s: Seq<(TagKey, String)>, k: TagKey) -> Option<Seq<char>>
    decreases s.len(),
{
    if s.len() == 0 {
        None
    } else if s.last().0 == k {
        Some(s.last().1@)
    } else {
        vault_lookup(s.drop_last(), k)
    }
}

proof fn lemma_lookup_none(s: Seq<(TagKey, String)>, k: TagKey)
    requires
        vault_lookup(s, k) is None,
    ensures
        forall|i: int| 0 <= i < s.len() ==> (#[trigger] s[i]).0 != k,
    decreases s.len(),
{
    if s.len() > 0 {
        lemma_lookup_none(s.drop_last(), k);
        assert forall|i: int| 0 <= i < s.len() implies (#[trigger] s[i]).0 != k by {
            if i < s.len() - 1 {
                assert(s[i] == s.drop_last()[i]);
            }
        }
    }
}

pub open spec fn group_name(g: ExifTagGroup) -> Seq<char> {
    match g {
        ExifTagGroup::GENERIC => "Generic"@,
        ExifTagGroup::EXIF => "Exif"@,
        ExifTagGroup::INTEROP => "Interop"@,
        ExifTagGroup::GPS => "GPS"@,
    }
}

/// How an unrecognised tag is named for display: `Unknown(Exif, hex:0x1a)`.
pub open spec fn unknown_label(k: TagKey) -> Seq<char> {
    "Unknown("@ + group_name(k.0) + ", hex:0x"@ + hex(k.1 as nat) + ")"@
}

/// Display name of an unrecognised tag.
pub fn unknown_string_core(hex_id: u16, group: ExifTagGroup) -> (r: String)
    ensures
        r@ == unknown_label((group, hex_id)),
{
    let mut s = String::from_str("Unknown(");
    match group {
        ExifTagGroup::GENERIC => s.append("Generic"),
        ExifTagGroup::EXIF => s.append("Exif"),
        ExifTagGroup::INTEROP => s.append("Interop"),
        ExifTagGroup::GPS => s.append("GPS"),
    }
    s.append(", hex:0x");
    let h = hex_text(hex_id as u64);
    s.append(h.as_str());
    s.append(")");
    s
}

/// What the structured record cannot edit: the maker's private note, and every tag outside the
/// schema, kept as display text under its namespace and identifier.
#[derive(Clone, Debug, PartialEq)]
pub struct Uneditable {
    pub maker_note: Option<String>,
    pub unknown_dict: Vec<(TagKey, String)>,
}

impl Uneditable {
    pub open spec fn wf(&self) -> bool {
        unique_keys(self.unknown_dict@)
    }

    pub open spec fn get(&self, k: TagKey) -> Option<Seq<char>> {
        vault_lookup(self.unknown_dict@, k)
    }

    pub fn new() -> (r: Self)
        ensures
            r.wf(),
            r.maker_note is None,
            forall|k: TagKey| r.get(k) is None,
    {
        Uneditable { maker_note: None, unknown_dict: Vec::new() }
    }

    /// Forgets the text under `k`.
    pub fn remove(&mut self, k: TagKey)
        requires
            old(self).wf(),
        ensures
            final(self).wf(),
            final(self).maker_note == old(self).maker_note,
            final(self).get(k) is None,
            forall|k2: TagKey| k2 != k ==> final(self).get(k2) == old(self).get(k2),
    {
        let ghost before = self.unknown_dict@;
        let mut i: usize = 0;
        let ghost mut j: int = 0;
        assert(self.unknown_dict@.take(0) =~= Seq::<(TagKey, String)>::empty());
        assert(before.take(0) =~= Seq::<(TagKey, String)>::empty());
        while i < self.unknown_dict.len()
            invariant
                0 <= i <= self.unknown_dict@.len(),
                0 <= j <= before.len(),
                unique_keys(self.unknown_dict@),
                self.maker_note == old(self).maker_note,
                self.unknown_dict@.skip(i as int) == before.skip(j),
                vault_lookup(self.unknown_dict@.take(i as int), k) is None,
                forall|k2: TagKey| k2 != k ==> vault_lookup(self.unknown_dict@.take(i as int), k2)
                    == vault_lookup(before.take(j), k2),
            decreases self.unknown_dict@.len() - i,
        {
            let ghost cur = self.unknown_dict@;
            assert(cur.skip(i as int).len() == before.skip(j).len());
            assert(cur[i as int] == cur.skip(i as int)[0]);
            assert(before[j] == before.skip(j)[0]);
            assert(before.take(j + 1).drop_last() =~= before.take(j));
            assert(before.take(j + 1).last() == before[j]);
            assert(before.skip(j + 1) =~= before.skip(j).skip(1));
            assert(cur.skip(i as int + 1) =~= cur.skip(i as int).skip(1));
            let (g, id) = self.unknown_dict[i].0;
            if g == k.0 && id == k.1 {
                self.unknown_dict.remove(i);
                assert(self.unknown_dict@.take(i as int) =~= cur.take(i as int));
                assert(self.unknown_dict@.skip(i as int) =~= cur.skip(i as int + 1));
                assert forall|a: int, b: int| 0 <= a < b < self.unknown_dict@.len() implies (
                #[trigger] self.unknown_dict@[a]).0 != (#[trigger] self.unknown_dict@[b]).0 by {
                    let a2 = if a < i { a } else { a + 1 };
                    let b2 = if b < i { b } else { b + 1 };
                    assert(self.unknown_dict@[a] == cur[a2]);
                    assert(self.unknown_dict@[b] == cur[b2]);
                }
                assert forall|k2: TagKey| k2 != k implies #[trigger] vault_lookup(
                    self.unknown_dict@.take(i as int),
                    k2,
                ) == vault_lookup(before.take(j + 1), k2) by {
                    assert(vault_lookup(cur.take(i as int), k2) == vault_lookup(before.take(j), k2));
                }
                proof {
                    j = j + 1;
                }
            } else {
                assert(cur.take(i as int + 1).drop_last() =~= cur.take(i as int));
                assert(cur.take(i as int + 1).last() == cur[i as int]);
                assert(cur[i as int] == before[j]);
                assert forall|k2: TagKey| k2 != k implies #[trigger] vault_lookup(cur.take(i as int + 1), k2)
                    == vault_lookup(before.take(j + 1), k2) by {
                    if cur[i as int].0 != k2 {
                        assert(vault_lookup(cur.take(i as int + 1), k2) == vault_lookup(cur.take(i as int), k2));
                        assert(vault_lookup(before.take(j + 1), k2) == vault_lookup(before.take(j), k2));
                    }
                }
                assert(vault_lookup(cur.take(i as int + 1), k) is None);
                i = i + 1;
                proof {
                    j = j + 1;
                }
            }
        }
        assert(before.skip(j).len() == 0);
        assert(before.take(j) =~= before);
        assert(self.unknown_dict@.take(i as int) =~= self.unknown_dict@);
    }

    /// Stores `text` under `k`, replacing what was there.
    pub fn insert(&mut self, k: TagKey, text: String)
        requires
            old(self).wf(),
        ensures
            final(self).wf(),
            final(self).maker_note == old(self).maker_note,
            final(self).get(k) == Some(text@),
            forall|k2: TagKey| k2 != k ==> final(self).get(k2) == old(self).get(k2),
    {
        self.remove(k);
        let ghost prev = self.unknown_dict@;
        proof {
            lemma_lookup_none(prev, k);
        }
        self.unknown_dict.push((k, text));
        assert(self.unknown_dict@.drop_last() =~= prev);
        assert forall|a: int, b: int| 0 <= a < b < self.unknown_dict@.len() implies (
        #[trigger] self.unknown_dict@[a]).0 != (#[trigger] self.unknown_dict@[b]).0 by {
            if b == prev.len() {
                assert(self.unknown_dict@[a] == prev[a]);
            } else {
                assert(self.unknown_dict@[a] == prev[a]);
                assert(self.unknown_dict@[b] == prev[b]);
            }
        }
    }

    /// Every unrecognised tag as (display name, text), ordered by namespace and then identifier.
    pub fn unknown_all(&self) -> (r: Vec<(String, String)>)
        requires
            self.wf(),
        ensures
            r@.len() == self.unknown_dict@.len(),
            exists|order: Seq<int>| Self::listing(self.unknown_dict@, order, r@),
    {
        let n = self.unknown_dict.len();
        let mut keys: Vec<(u32, usize)> = Vec::new();
        let mut i: usize = 0;
        let ghost s = self.unknown_dict@;
        while i < n
            invariant
                n == s.len(),
                s == self.unknown_dict@,
                unique_keys(s),
                0 <= i <= n,
                keys@.len() == i,
                forall|m: int| 0 <= m < keys@.len() ==> (#[trigger] keys@[m]).1 < i,
                forall|m: int| 0 <= m < keys@.len() ==> (#[trigger] keys@[m]).0 == key_rank(s[keys@[m].1 as int].0),
                forall|a: int, b: int| 0 <= a < b < keys@.len() ==> (#[trigger] keys@[a]).0 < (#[trigger] keys@[b]).0,
            decreases n - i,
        {
            let rank = key_rank_of(self.unknown_dict[i].0);
            let mut p: usize = 0;
            while p < keys.len() && keys[p].0 < rank
                invariant
                    0 <= p <= keys@.len(),
                    forall|m: int| 0 <= m < p ==> (#[trigger] keys@[m]).0 < rank,
                decreases keys@.len() - p,
            {
                p = p + 1;
            }
            proof {
                assert forall|m: int| p <= m < keys@.len() implies (#[trigger] keys@[m]).0 > rank by {
                    if p < keys@.len() {
                        assert(keys@[p as int].0 >= rank);
                        if m > p {
                            assert(keys@[p as int].0 < keys@[m].0);
                        }
                        let j = keys@[m].1 as int;
                        assert(j != i);
                        lemma_rank_injective(s[j].0, s[i as int].0);
                        if j < i {
                            assert(s[j].0 != s[i as int].0);
                        } else {
                            assert(s[i as int].0 != s[j].0);
                        }
                    }
                }
            }
            let ghost old_keys = keys@;
            keys.insert(p, (rank, i));
            assert forall|m: int| 0 <= m < keys@.len() implies (#[trigger] keys@[m]).1 < i + 1 by {
                if m < p {
                    assert(keys@[m] == old_keys[m]);
                } else if m > p {
                    assert(keys@[m] == old_keys[m - 1]);
                }
            }
            assert forall|m: int| 0 <= m < keys@.len() implies (#[trigger] keys@[m]).0 == key_rank(
                s[keys@[m].1 as int].0,
            ) by {
                if m < p {
                    assert(keys@[m] == old_keys[m]);
                } else if m > p {
                    assert(keys@[m] == old_keys[m - 1]);
                }
            }
            assert forall|a: int, b: int| 0 <= a < b < keys@.len() implies (#[trigger] keys@[a]).0 < (
            #[trigger] keys@[b]).0 by {
                if b < p {
                    assert(keys@[a] == old_keys[a] && keys@[b] == old_keys[b]);
                } else if b == p {
                    assert(keys@[a] == old_keys[a]);
                } else if a < p {
                    assert(keys@[a] == old_keys[a] && keys@[b] == old_keys[b - 1]);
                } else if a == p {
                    assert(keys@[b] == old_keys[b - 1]);
                } else {
                    assert(keys@[a] == old_keys[a - 1] && keys@[b] == old_keys[b - 1]);
                }
            }
            i = i + 1;
        }
        let mut r: Vec<(String, String)> = Vec::new();
        let mut m: usize = 0;
        while m < n
            invariant
                n == s.len() == keys@.len(),
                s == self.unknown_dict@,
                0 <= m <= n,
                r@.len() == m,
                forall|q: int| 0 <= q < keys@.len() ==> (#[trigger] keys@[q]).1 < n,
                forall|q: int| 0 <= q < keys@.len() ==> (#[trigger] keys@[q]).0 == key_rank(s[keys@[q].1 as int].0),
                forall|a: int, b: int| 0 <= a < b < keys@.len() ==> (#[trigger] keys@[a]).0 < (#[trigger] keys@[b]).0,
                forall|q: int| 0 <= q < m ==> (#[trigger] r@[q]).0@ == unknown_label(s[keys@[q].1 as int].0)
                    && r@[q].1@ == s[keys@[q].1 as int].1@,
            decreases n - m,
        {
            let j = keys[m].1;
            let (g, id) = self.unknown_dict[j].0;
            let label = unknown_string_core(id, g);
            let text = self.unknown_dict[j].1.clone();
            r.push((label, text));
            m = m + 1;
        }
        let ghost order = keys@.map_values(|x: (u32, usize)| x.1 as int);
        assert(Self::listing(s, order, r@));
        r
    }

    /// `out` lists the entries of `s` in the order `order` of their indices, ordered by key.
    pub open spec fn listing(s: Seq<(TagKey, String)>, order: Seq<int>, out: Seq<(String, String)>) -> bool {
        &&& order.len() == s.len() == out.len()
        &&& forall|q: int| 0 <= q < order.len() ==> 0 <= #[trigger] order[q] < s.len()
        &&& forall|a: int, b: int| 0 <= a < b < order.len() ==> key_rank(s[#[trigger] order[a]].0) < key_rank(
            s[#[trigger] order[b]].0,
        )
        &&& forall|q: int| 0 <= q < order.len() ==> (#[trigger] out[q]).0@ == unknown_label(s[order[q]].0)
            && out[q].1@ == s[order[q]].1@
    }
}

/// Different keys have different ranks.
pub proof fn lemma_rank_injective(a: TagKey, b: TagKey)
    ensures
        a != b ==> key_rank(a) != key_rank(b),
{
}

} // verus!
