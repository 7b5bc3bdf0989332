use vstd::prelude::*;
use crate::cid::Cid;

verus! {

/// A node of the link-aware wire format: the shapes a value can take on
/// the wire. A map is a sequence of key/value entries; lookup returns the
/// first entry with a matching key.
#[derive(Debug, PartialEq, Eq)]
pub enum Ipld {
    Null,
    Bool(bool),
    Integer(i128),
    Text(String),
    Bytes(Vec<u8>),
    List(Vec<Ipld>),
    Dict(Vec<(String, Ipld)>),
    Link(Cid),
}

/// The value under the first entry of `entries` whose key reads `key`,
/// if any entry does.
pub open spec fn spec_get(entries: Seq<(String, Ipld)>, key: Seq<char>) -> Option<Ipld>
    decreases entries.len(),
{
    if entries.len() == 0 {
        None
    } else if entries[0].0@ == key {
        Some(entries[0].1)
    } else {
        spec_get(entries.drop_first(), key)
    }
}

/// While no entry before position `i` matches, the lookup's outcome is
/// decided by the entries from `i` on.
proof fn lemma_get_skip(entries: Seq<(String, Ipld)>, key: Seq<char>, i: int)
    requires
        0 <= i <= entries.len(),
        forall|j: int| 0 <= j < i ==> entries[j].0@ != key,
    ensures
        spec_get(entries, key) == spec_get(entries.skip(i), key),
    decreases i,
{
    if i > 0 {
        assert(entries.skip(1).skip(i - 1) =~= entries.skip(i));
        lemma_get_skip(entries.skip(1), key, i - 1);
        assert(entries.drop_first() =~= entries.skip(1));
    } else {
        assert(entries.skip(0) =~= entries);
    }
}

/// When position `i` holds the first entry whose key matches, the
/// lookup returns that entry's value.
pub proof fn lemma_get_at(entries: Seq<(String, Ipld)>, key: Seq<char>, i: int)
    requires
        0 <= i < entries.len(),
        entries[i].0@ == key,
        forall|j: int| 0 <= j < i ==> entries[j].0@ != key,
    ensures
        spec_get(entries, key) == Some(entries[i].1),
{
    lemma_get_skip(entries, key, i);
    assert(entries.skip(i)[0] == entries[i]);
}

/// Looks a key up in a wire map's entries, first match first.
pub fn map_get<'a>(entries: &'a Vec<(String, Ipld)>, key: &String) -> (r: Option<&'a Ipld>)
    ensures
        match r {
            Some(node) => spec_get(entries@, key@) == Some(*node),
            None => spec_get(entries@, key@) is None,
        },
{
    let n = entries.len();
    let mut i: usize = 0;
    while i < n
        invariant
            n == entries@.len(),
            0 <= i <= n,
            forall|j: int| 0 <= j < i ==> entries@[j].0@ != key@,
        decreases n - i,
    {
        let pair = &entries[i];
        if pair.0 == *key {
            proof {
                lemma_get_skip(entries@, key@, i as int);
                assert(entries@.skip(i as int)[0] == entries@[i as int]);
            }
            return Some(&pair.1);
        }
        i = i + 1;
    }
    proof {
        lemma_get_skip(entries@, key@, n as int);
        assert(entries@.skip(n as int) =~= Seq::<(String, Ipld)>::empty());
    }
    None
}

} // verus!
