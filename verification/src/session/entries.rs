//! The data of a session: a list of entries read as a map.

use vstd::prelude::*;

use crate::text::str_eq;

verus! {

/// One key of a session and the value it holds.
#[derive(Debug, Clone, PartialEq, Eq)]
pub struct SessionEntry {
    pub key: String,
    pub value: String,
}

/// The map a list of entries stands for: the entries inserted in order, so a
/// later entry for a key replaces an earlier one.
pub open spec fn entries_map(entries: Seq<SessionEntry>) -> Map<Seq<char>, Seq<char>>
    decreases entries.len(),
{
    if entries.len() == 0 {
        Map::empty()
    } else {
        entries_map(entries.drop_last()).insert(entries.last().key@, entries.last().value@)
    }
}

/// The entries that are left when every entry for `key` is taken out.
pub open spec fn without_key(entries: Seq<SessionEntry>, key: Seq<char>) -> Seq<SessionEntry>
    decreases entries.len(),
{
    if entries.len() == 0 {
        entries
    } else if entries.last().key@ == key {
        without_key(entries.drop_last(), key)
    } else {
        without_key(entries.drop_last(), key).push(entries.last())
    }
}

/// What a map holds under `key`, if anything.
pub open spec fn map_get(map: Map<Seq<char>, Seq<char>>, key: Seq<char>) -> Option<Seq<char>> {
    if map.contains_key(key) {
        Some(map[key])
    } else {
        None
    }
}

/// A key is in the map exactly if some entry carries it.
pub proof fn lemma_entries_map_keys(entries: Seq<SessionEntry>, key: Seq<char>)
    ensures
        entries_map(entries).contains_key(key) <==> exists|i: int|
            0 <= i < entries.len() && #[trigger] entries[i].key@ == key,
    decreases entries.len(),
{
    if entries.len() > 0 {
        let front = entries.drop_last();
        lemma_entries_map_keys(front, key);
        if entries_map(entries).contains_key(key) {
            if entries.last().key@ == key {
                assert(entries[entries.len() - 1].key@ == key);
            } else {
                let i = choose|i: int| 0 <= i < front.len() && #[trigger] front[i].key@ == key;
                assert(entries[i].key@ == key);
            }
        }
        if exists|i: int| 0 <= i < entries.len() && #[trigger] entries[i].key@ == key {
            let i = choose|i: int| 0 <= i < entries.len() && #[trigger] entries[i].key@ == key;
            if i < entries.len() - 1 {
                assert(front[i].key@ == key);
            }
        }
    }
}

/// The map holds, under a key, the value of the last entry that carries it.
pub proof fn lemma_entries_map_last_wins(entries: Seq<SessionEntry>, i: int)
    requires
        0 <= i < entries.len(),
        forall|j: int| i < j < entries.len() ==> #[trigger] entries[j].key@ != entries[i].key@,
    ensures
        map_get(entries_map(entries), entries[i].key@) == Some(entries[i].value@),
    decreases entries.len(),
{
    if i < entries.len() - 1 {
        let front = entries.drop_last();
        assert(entries[entries.len() - 1].key@ != entries[i].key@);
        assert forall|j: int| i < j < front.len() implies #[trigger] front[j].key@
            != front[i].key@ by {
            assert(entries[j].key@ != entries[i].key@);
        }
        lemma_entries_map_last_wins(front, i);
    }
}

/// Taking every entry for a key out of the list removes the key from the map
/// and leaves the rest of the map as it was.
pub proof fn lemma_without_key_removes(entries: Seq<SessionEntry>, key: Seq<char>)
    ensures
        entries_map(without_key(entries, key)) == entries_map(entries).remove(key),
    decreases entries.len(),
{
    if entries.len() > 0 {
        let front = entries.drop_last();
        lemma_without_key_removes(front, key);
        if entries.last().key@ == key {
            assert(entries_map(front).remove(key) =~= entries_map(entries).remove(key));
        } else {
            let kept = without_key(front, key).push(entries.last());
            assert(kept.drop_last() =~= without_key(front, key));
            assert(kept.last() == entries.last());
            assert(entries_map(kept) =~= entries_map(entries).remove(key));
        }
    } else {
        assert(entries_map(entries).remove(key) =~= entries_map(entries));
    }
}

/// The entry that decides what `entries` hold under `key`: the last one that
/// carries the key.
pub(crate) fn find<'a>(entries: &'a Vec<SessionEntry>, key: &str) -> (found: Option<&'a String>)
    ensures
        match found {
            Some(value) => map_get(entries_map(entries@), key@) == Some(value@),
            None => map_get(entries_map(entries@), key@).is_none(),
        },
{
    let mut i: usize = entries.len();
    while i > 0
        invariant
            i <= entries@.len(),
            forall|j: int| i <= j < entries@.len() ==> #[trigger] entries@[j].key@ != key@,
        decreases i,
    {
        i -= 1;
        if str_eq(entries[i].key.as_str(), key) {
            proof {
                lemma_entries_map_last_wins(entries@, i as int);
            }
            return Some(&entries[i].value);
        }
    }
    proof {
        lemma_entries_map_keys(entries@, key@);
    }
    None
}

/// Takes every entry for `key` out of `entries`, keeping the others in order.
pub(crate) fn strip(entries: &mut Vec<SessionEntry>, key: &str)
    ensures
        final(entries)@ == without_key(old(entries)@, key@),
{
    let ghost orig = entries@;
    let ghost mut seen: int = 0;
    let mut i: usize = 0;
    while i < entries.len()
        invariant
            0 <= seen <= orig.len(),
            i == without_key(orig.take(seen), key@).len(),
            entries@ == without_key(orig.take(seen), key@) + orig.skip(seen),
        decreases orig.len() - seen,
    {
        proof {
            assert(entries@[i as int] == orig.skip(seen)[0]);
            assert(orig.take(seen + 1).drop_last() =~= orig.take(seen));
            assert(orig.take(seen + 1).last() == orig[seen]);
        }
        if str_eq(entries[i].key.as_str(), key) {
            entries.remove(i);
            proof {
                assert(entries@ =~= without_key(orig.take(seen + 1), key@) + orig.skip(seen + 1));
            }
        } else {
            i += 1;
            proof {
                assert(entries@ =~= without_key(orig.take(seen + 1), key@) + orig.skip(seen + 1));
            }
        }
        proof {
            seen = seen + 1;
        }
    }
    proof {
        assert(orig.take(seen) =~= orig);
        assert(entries@ =~= without_key(orig, key@));
    }
}

/// Whether every key of `a` is a key of `b` with the same value.
fn within(a: &Vec<SessionEntry>, b: &Vec<SessionEntry>) -> (yes: bool)
    ensures
        yes == entries_map(a@).submap_of(entries_map(b@)),
{
    let mut i: usize = 0;
    while i < a.len()
        invariant
            i <= a@.len(),
            forall|j: int|
                0 <= j < i ==> map_get(entries_map(b@), #[trigger] a@[j].key@) == map_get(
                    entries_map(a@),
                    a@[j].key@,
                ),
        decreases a@.len() - i,
    {
        let key = a[i].key.as_str();
        let ours = find(a, key);
        let theirs = find(b, key);
        proof {
            lemma_entries_map_keys(a@, key@);
            assert(a@[i as int].key@ == key@);
        }
        let same = match (ours, theirs) {
            (Some(x), Some(y)) => str_eq(x.as_str(), y.as_str()),
            _ => false,
        };
        if !same {
            assert(!entries_map(a@).submap_of(entries_map(b@))) by {
                assert(entries_map(a@).dom().contains(key@));
            }
            return false;
        }
        i += 1;
    }
    proof {
        assert forall|k: Seq<char>| #[trigger]
            entries_map(a@).dom().contains(k) implies entries_map(b@).dom().contains(k)
            && entries_map(a@)[k] == entries_map(b@)[k] by {
            lemma_entries_map_keys(a@, k);
            let j = choose|j: int| 0 <= j < a@.len() && #[trigger] a@[j].key@ == k;
            assert(map_get(entries_map(b@), a@[j].key@) == map_get(entries_map(a@), a@[j].key@));
        }
    }
    true
}

/// Whether two lists of entries stand for the same map.
pub fn same_data(a: &Vec<SessionEntry>, b: &Vec<SessionEntry>) -> (same: bool)
    ensures
        same == (entries_map(a@) == entries_map(b@)),
{
    let same = within(a, b) && within(b, a);
    proof {
        let (ma, mb) = (entries_map(a@), entries_map(b@));
        if same {
            assert forall|k: Seq<char>| ma.dom().contains(k) <==> mb.dom().contains(k) by {}
            assert(ma =~= mb);
        } else if ma == mb {
            assert(ma.submap_of(mb) && mb.submap_of(ma));
        }
    }
    same
}

} // verus!
