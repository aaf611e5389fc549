//! Lists of entries under text keys, read as maps: the first entry under a key
//! is the one that counts.

use crate::text::same_text;
use vstd::prelude::*;
use vstd::string::*;

verus! {

/// The place of the first `key` among `keys`, or their number where it is not
/// among them.
pub open spec fn place_of(keys: Seq<Seq<char>>, key: Seq<char>) -> int
    decreases keys.len(),
{
    if keys.len() == 0 || keys[0] == key {
        0
    } else {
        1 + place_of(keys.drop_first(), key)
    }
}

/// Whether `i` is the place of the first `key` among `keys`.
pub open spec fn is_place_of(keys: Seq<Seq<char>>, key: Seq<char>, i: int) -> bool {
    &&& 0 <= i <= keys.len()
    &&& forall|j: int| 0 <= j < i ==> keys[j] != key
    &&& i < keys.len() ==> keys[i] == key
}

/// The keys of a list of entries.
pub open spec fn keys_of<V>(entries: Seq<(String, V)>) -> Seq<Seq<char>> {
    entries.map_values(|e: (String, V)| e.0@)
}

/// `place_of` is the one index that `is_place_of` accepts.
pub proof fn lemma_place_of(keys: Seq<Seq<char>>, key: Seq<char>, i: int)
    requires
        is_place_of(keys, key, i),
    ensures
        place_of(keys, key) == i,
    decreases keys.len(),
{
    if keys.len() == 0 || keys[0] == key {
        if i > 0 {
            assert(keys[0] != key);
        }
    } else {
        let rest = keys.drop_first();
        assert forall|j: int| 0 <= j < i - 1 implies rest[j] != key by {
            assert(rest[j] == keys[j + 1]);
        }
        lemma_place_of(rest, key, i - 1);
    }
}

/// `place_of` meets its description.
pub proof fn lemma_place_of_is_place(keys: Seq<Seq<char>>, key: Seq<char>)
    ensures
        is_place_of(keys, key, place_of(keys, key)),
    decreases keys.len(),
{
    if keys.len() == 0 || keys[0] == key {
    } else {
        let rest = keys.drop_first();
        lemma_place_of_is_place(rest, key);
        let i = place_of(rest, key);
        assert forall|j: int| 0 <= j < i + 1 implies keys[j] != key by {
            if j > 0 {
                assert(rest[j - 1] == keys[j]);
            }
        }
    }
}

/// One more key at the end changes no place but that of a key which was not
/// there, and only if it is that key.
pub proof fn lemma_place_after_push(keys: Seq<Seq<char>>, added: Seq<char>, key: Seq<char>)
    ensures
        place_of(keys, key) < keys.len() ==> place_of(keys.push(added), key) == place_of(
            keys,
            key,
        ),
        place_of(keys, key) >= keys.len() && key == added ==> place_of(keys.push(added), key)
            == keys.len(),
        place_of(keys, key) >= keys.len() && key != added ==> place_of(keys.push(added), key)
            == keys.len() + 1,
{
    lemma_place_of_is_place(keys, key);
    let i = place_of(keys, key);
    let more = keys.push(added);
    if i < keys.len() {
        assert(is_place_of(more, key, i));
        lemma_place_of(more, key, i);
    } else if key == added {
        assert(is_place_of(more, key, keys.len() as int));
        lemma_place_of(more, key, keys.len() as int);
    } else {
        assert(is_place_of(more, key, more.len() as int));
        lemma_place_of(more, key, more.len() as int);
    }
}

/// The place of `key` among the keys of `entries`.
pub fn find_key<V>(entries: &Vec<(String, V)>, key: &str) -> (r: usize)
    ensures
        r <= entries.len(),
        r == place_of(keys_of(entries@), key@),
{
    let ghost keys = keys_of(entries@);
    let mut i: usize = 0;
    while i < entries.len()
        invariant
            i <= entries.len(),
            keys == keys_of(entries@),
            forall|j: int| 0 <= j < i ==> keys[j] != key@,
        decreases entries.len() - i,
    {
        if same_text(entries[i].0.as_str(), key) {
            proof {
                lemma_place_of(keys, key@, i as int);
            }
            return i;
        }
        i += 1;
    }
    proof {
        lemma_place_of(keys, key@, i as int);
    }
    i
}

/// Puts `value` under `key`: in the place of the first entry under that key,
/// or at the end where there is none. The keys stay as they are but for a new
/// one at the end.
pub fn put<V>(entries: &mut Vec<(String, V)>, key: String, value: V)
    ensures
        ({
            let at = place_of(keys_of(old(entries)@), key@);
            if at < old(entries)@.len() {
                &&& final(entries)@ == old(entries)@.update(at, (key, value))
                &&& keys_of(final(entries)@) == keys_of(old(entries)@)
            } else {
                &&& final(entries)@ == old(entries)@.push((key, value))
                &&& keys_of(final(entries)@) == keys_of(old(entries)@).push(key@)
            }
        }),
{
    let at = find_key(entries, key.as_str());
    let ghost before = entries@;
    if at < entries.len() {
        proof {
            lemma_place_of_is_place(keys_of(before), key@);
        }
        entries.set(at, (key, value));
        assert(keys_of(entries@) =~= keys_of(before));
    } else {
        entries.push((key, value));
        assert(keys_of(entries@) =~= keys_of(before).push(key@));
    }
}

} // verus!
