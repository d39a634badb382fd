//! Tag identities, raw payloads, and the raw tag table keyed by namespace and identifier.
use vstd::prelude::*;
use crate::rational::{uR64, iR64};

verus! {

/// The namespace (image file directory) that a tag identifier belongs to.
#[allow(non_camel_case_types)]
#[derive(Clone, Copy, Debug, PartialEq, Eq, Hash, Structural)]
pub enum ExifTagGroup {
    GENERIC,
    EXIF,
    INTEROP,
    GPS,
}

impl ExifTagGroup {
    /// Position of the namespace in listing order.
    pub open spec fn rank(&self) -> nat {
        match self {
            ExifTagGroup::GENERIC => 0,
            ExifTagGroup::EXIF => 1,
            ExifTagGroup::INTEROP => 2,
            ExifTagGroup::GPS => 3,
        }
    }

    pub fn rank_of(&self) -> (r: u32)
        ensures
            r == self.rank(),
    {
        match self {
            ExifTagGroup::GENERIC => 0,
            ExifTagGroup::EXIF => 1,
            ExifTagGroup::INTEROP => 2,
            ExifTagGroup::GPS => 3,
        }
    }
}

/// A tag's identity: its namespace and numeric identifier.
pub type TagKey = (ExifTagGroup, u16);

/// Listing order of keys: by namespace, then by identifier.
pub open spec fn key_rank(k: TagKey) -> nat {
    k.0.rank() * 65536 + k.1 as nat
}

pub fn key_rank_of(k: TagKey) -> (r: u32)
    ensures
        r == key_rank(k),
{
    k.0.rank_of() * 65536 + k.1 as u32
}

/// The raw payload of a tag, in one of the value shapes the format has.
#[derive(Clone, Debug, PartialEq)]
pub enum TagValue {
    Ascii(String),
    U8(Vec<u8>),
    U16(Vec<u16>),
    U32(Vec<u32>),
    URational(Vec<uR64>),
    I8(Vec<i8>),
    Undefined(Vec<u8>),
    I16(Vec<i16>),
    I32(Vec<i32>),
    IRational(Vec<iR64>),
    /// A shape the library does not read (floating point), kept as its format code and raw
    /// bytes.
    Opaque(u16, Vec<u8>),
}

/// One entry of the raw tag table.
#[derive(Clone, Debug, PartialEq)]
pub struct TagEntry {
    pub group: ExifTagGroup,
    pub id: u16,
    pub value: TagValue,
}

impl TagEntry {
    pub open spec fn key(&self) -> TagKey {
        (self.group, self.id)
    }
}

/// The entry that the table holds under `k`: the last one with that key.
pub open spec fn lookup(s: Seq<TagEntry>, k: TagKey) -> Option<TagEntry>
    decreases s.len(),
{
    if s.len() == 0 {
        None
    } else if s.last().key() == k {
        Some(s.last())
    } else {
        lookup(s.drop_last(), k)
    }
}

/// The raw tag table: at most one entry per key.
#[derive(Clone, Debug, PartialEq)]
pub struct Metadata {
    pub entries: Vec<TagEntry>,
}

impl Metadata {
    pub open spec fn get(&self, k: TagKey) -> Option<TagEntry> {
        lookup(self.entries@, k)
    }

    pub fn new() -> (r: Self)
        ensures
            forall|k: TagKey| r.get(k) is None,
    {
        Metadata { entries: Vec::new() }
    }

    /// The table without any entry under `k`.
    pub fn remove_tag(&mut self, k: TagKey)
        ensures
            final(self).get(k) is None,
            forall|k2: TagKey| k2 != k ==> final(self).get(k2) == old(self).get(k2),
    {
        let ghost before = self.entries@;
        let mut i: usize = 0;
        let ghost mut j: int = 0;
        assert(self.entries@.take(0) =~= Seq::<TagEntry>::empty());
        assert(before.take(0) =~= Seq::<TagEntry>::empty());
        while i < self.entries.len()
            invariant
                0 <= i <= self.entries@.len(),
                0 <= j <= before.len(),
                self.entries@.skip(i as int) == before.skip(j),
                lookup(self.entries@.take(i as int), k) is None,
                forall|k2: TagKey| k2 != k ==> lookup(self.entries@.take(i as int), k2) == lookup(before.take(j), k2),
            decreases self.entries@.len() - i,
        {
            let ghost cur = self.entries@;
            assert(cur.skip(i as int).len() == before.skip(j).len());
            assert(j < before.len());
            assert(cur[i as int] == cur.skip(i as int)[0]);
            assert(before[j] == before.skip(j)[0]);
            assert(before.take(j + 1).drop_last() =~= before.take(j));
            if self.entries[i].group == k.0 && self.entries[i].id == k.1 {
                self.entries.remove(i);
                assert(self.entries@.take(i as int) =~= cur.take(i as int));
                assert(self.entries@.skip(i as int) =~= cur.skip(i as int + 1));
                assert(before.skip(j + 1) =~= before.skip(j).skip(1));
                assert(cur.skip(i as int + 1) =~= cur.skip(i as int).skip(1));
                assert(before.take(j + 1).last() == before[j]);
                assert(before[j].key() == k);
                assert forall|k2: TagKey| k2 != k implies #[trigger] lookup(self.entries@.take(i as int), k2) == lookup(
                    before.take(j + 1),
                    k2,
                ) by {
                    assert(lookup(cur.take(i as int), k2) == lookup(before.take(j), k2));
                    assert(lookup(before.take(j + 1), k2) == lookup(before.take(j), k2));
                }
                proof {
                    j = j + 1;
                }
            } else {
                assert(cur.take(i as int + 1).drop_last() =~= cur.take(i as int));
                assert(cur.take(i as int + 1).last() == cur[i as int]);
                assert(before.take(j + 1).last() == before[j]);
                assert(before.skip(j + 1) =~= before.skip(j).skip(1));
                assert(cur[i as int] == before[j]);
                assert forall|k2: TagKey| k2 != k implies #[trigger] lookup(cur.take(i as int + 1), k2) == lookup(
                    before.take(j + 1),
                    k2,
                ) by {
                    if cur[i as int].key() != k2 {
                        assert(lookup(cur.take(i as int + 1), k2) == lookup(cur.take(i as int), k2));
                        assert(lookup(before.take(j + 1), k2) == lookup(before.take(j), k2));
                    }
                }
                assert(lookup(cur.take(i as int + 1), k) is None);
                assert(cur.skip(i as int + 1) =~= cur.skip(i as int).skip(1));
                i = i + 1;
                proof {
                    j = j + 1;
                }
            }
        }
        assert(before.skip(j).len() == 0);
        assert(before.take(j) =~= before);
        assert(self.entries@.take(i as int) =~= self.entries@);
    }

    /// The table with `e` under its key, replacing what was there.
    pub fn set_tag(&mut self, e: TagEntry)
        ensures
            final(self).get(e.key()) == Some(e),
            forall|k2: TagKey| k2 != e.key() ==> final(self).get(k2) == old(self).get(k2),
    {
        self.remove_tag((e.group, e.id));
        let ghost prev = self.entries@;
        self.entries.push(e);
        assert(self.entries@.drop_last() =~= prev);
    }
}

/// A copy of a vector of plain values.
pub fn copy_vec<T: Copy>(v: &Vec<T>) -> (r: Vec<T>)
    ensures
        r@ == v@,
{
    let mut r: Vec<T> = Vec::new();
    let mut i: usize = 0;
    while i < v.len()
        invariant
            0 <= i <= v@.len(),
            r@ == v@.take(i as int),
        decreases v@.len() - i,
    {
        r.push(v[i]);
        i = i + 1;
        assert(r@ =~= v@.take(i as int));
    }
    assert(v@.take(v@.len() as int) =~= v@);
    r
}

} // verus!
