//! Ordered mappings from a key to a value, both strings: the shape of a
//! header list and of the members of a JSON object. A key is put at the
//! place of its first entry, or at the end where it has none.

use vstd::prelude::*;

verus! {

/// A list of entries, as a mathematical value.
pub type Entries = Seq<(Seq<char>, Seq<char>)>;

/// The mathematical value of a list of pairs of strings.
pub open spec fn pairs_view(pairs: Seq<(String, String)>) -> Entries {
    Seq::new(pairs.len(), |i: int| (pairs[i].0@, pairs[i].1@))
}

/// The mathematical value of a list of strings.
pub open spec fn strings_view(items: Seq<String>) -> Seq<Seq<char>> {
    Seq::new(items.len(), |i: int| items[i]@)
}

/// `i` is the place of the first entry of `m` with the key `k`.
pub open spec fn is_first_key(m: Entries, k: Seq<char>, i: int) -> bool {
    &&& 0 <= i < m.len()
    &&& m[i].0 == k
    &&& forall|j: int| 0 <= j < i ==> m[j].0 != k
}

/// Whether `m` has an entry with the key `k`.
pub open spec fn has_key(m: Entries, k: Seq<char>) -> bool {
    exists|i: int| 0 <= i < m.len() && m[i].0 == k
}

/// The place of the first entry of `m` with the key `k`.
pub open spec fn key_index(m: Entries, k: Seq<char>) -> Option<int> {
    if exists|i: int| is_first_key(m, k, i) {
        Some(choose|i: int| is_first_key(m, k, i))
    } else {
        None
    }
}

/// The value that `m` gives to the key `k`: that of its first entry.
pub open spec fn value_of(m: Entries, k: Seq<char>) -> Option<Seq<char>> {
    match key_index(m, k) {
        Some(i) => Some(m[i].1),
        None => None,
    }
}

/// `m` with the key `k` set to `v`: the first entry of that key gets the
/// new value and keeps its place; a new key goes to the end.
pub open spec fn put(m: Entries, k: Seq<char>, v: Seq<char>) -> Entries {
    match key_index(m, k) {
        Some(i) => m.update(i, (k, v)),
        None => m.push((k, v)),
    }
}

/// `m` without the entries whose key is one of `keys`, the others in their
/// order.
pub open spec fn without_keys(m: Entries, keys: Seq<Seq<char>>) -> Entries
    decreases m.len(),
{
    if m.len() == 0 {
        m
    } else if keys.contains(m.last().0) {
        without_keys(m.drop_last(), keys)
    } else {
        without_keys(m.drop_last(), keys).push(m.last())
    }
}

/// No key occurs twice in `m`.
pub open spec fn distinct_keys(m: Entries) -> bool {
    forall|i: int, j: int| 0 <= i < j < m.len() ==> m[i].0 != m[j].0
}

/// The first entry of a key stands at one place only.
pub proof fn lemma_key_index(m: Entries, k: Seq<char>, i: int)
    requires
        is_first_key(m, k, i),
    ensures
        key_index(m, k) == Some(i),
{
    let c = choose|c: int| is_first_key(m, k, c);
    if c < i {
        assert(m[c].0 != k);
    } else if i < c {
        assert(m[i].0 != k);
    }
}

/// A key that no entry has is found nowhere.
pub proof fn lemma_no_key_index(m: Entries, k: Seq<char>)
    requires
        forall|j: int| 0 <= j < m.len() ==> m[j].0 != k,
    ensures
        key_index(m, k).is_none(),
        !has_key(m, k),
{
    if exists|i: int| is_first_key(m, k, i) {
        let c = choose|c: int| is_first_key(m, k, c);
        assert(m[c].0 != k);
    }
}

/// What `key_index` returns: the first place of the key, or nothing where
/// the key does not occur.
pub proof fn lemma_key_index_is_first(m: Entries, k: Seq<char>)
    ensures
        match key_index(m, k) {
            Some(i) => is_first_key(m, k, i),
            None => forall|j: int| 0 <= j < m.len() ==> m[j].0 != k,
        },
    decreases m.len(),
{
    if key_index(m, k).is_none() {
        assert forall|j: int| 0 <= j < m.len() implies m[j].0 != k by {
            if m[j].0 == k {
                lemma_first_exists(m, k, j);
            }
        }
    }
}

/// A key that occurs at `j` has a first place.
proof fn lemma_first_exists(m: Entries, k: Seq<char>, j: int)
    requires
        0 <= j < m.len(),
        m[j].0 == k,
    ensures
        exists|i: int| is_first_key(m, k, i),
    decreases j,
{
    if forall|i: int| 0 <= i < j ==> m[i].0 != k {
        assert(is_first_key(m, k, j));
    } else {
        let i = choose|i: int| 0 <= i < j && m[i].0 == k;
        lemma_first_exists(m, k, i);
    }
}

/// After a key is put it has the value put, whatever it had before.
pub proof fn lemma_put_sets_value(m: Entries, k: Seq<char>, v: Seq<char>)
    ensures
        value_of(put(m, k, v), k) == Some(v),
        has_key(put(m, k, v), k),
{
    lemma_key_index_is_first(m, k);
    let r = put(m, k, v);
    match key_index(m, k) {
        Some(i) => {
            assert(is_first_key(r, k, i));
            lemma_key_index(r, k, i);
            assert(r[i].0 == k);
        },
        None => {
            assert(is_first_key(r, k, m.len() as int));
            lemma_key_index(r, k, m.len() as int);
            assert(r[m.len() as int].0 == k);
        },
    }
}

/// Putting a key leaves the values of the other keys as they were.
pub proof fn lemma_put_keeps_others(m: Entries, k: Seq<char>, v: Seq<char>, other: Seq<char>)
    requires
        other != k,
    ensures
        value_of(put(m, k, v), other) == value_of(m, other),
{
    lemma_key_index_is_first(m, k);
    lemma_key_index_is_first(m, other);
    let r = put(m, k, v);
    match key_index(m, other) {
        Some(i) => {
            assert(r[i] == m[i]);
            assert forall|j: int| 0 <= j < i implies r[j].0 != other by {
                if key_index(m, k) == Some(j) {
                } else {
                    assert(r[j] == m[j]);
                }
            }
            assert(is_first_key(r, other, i));
            lemma_key_index(r, other, i);
        },
        None => {
            assert forall|j: int| 0 <= j < r.len() implies r[j].0 != other by {
                if j < m.len() && key_index(m, k) != Some(j) {
                    assert(r[j] == m[j]);
                }
            }
            lemma_no_key_index(r, other);
        },
    }
}

/// Putting a key that is there replaces its value and adds no entry;
/// putting a new key adds one entry.
pub proof fn lemma_put_replaces(m: Entries, k: Seq<char>, v: Seq<char>)
    ensures
        has_key(m, k) ==> put(m, k, v).len() == m.len(),
        !has_key(m, k) ==> put(m, k, v).len() == m.len() + 1,
        distinct_keys(m) ==> distinct_keys(put(m, k, v)),
{
    lemma_key_index_is_first(m, k);
    let r = put(m, k, v);
    match key_index(m, k) {
        Some(i) => {
            assert(m[i].0 == k);
            if distinct_keys(m) {
                assert forall|a: int, b: int| 0 <= a < b < r.len() implies r[a].0 != r[b].0 by {
                    assert(r[a].0 == m[a].0);
                    assert(r[b].0 == m[b].0);
                }
            }
        },
        None => {
            if distinct_keys(m) {
                assert forall|a: int, b: int| 0 <= a < b < r.len() implies r[a].0 != r[b].0 by {
                    assert(r[a] == m[a]);
                    if b < m.len() {
                        assert(r[b] == m[b]);
                    }
                }
            }
        },
    }
}

/// Of two values put under one key, the one put last stays: the first
/// leaves no trace.
pub proof fn lemma_put_twice(m: Entries, k: Seq<char>, first: Seq<char>, last: Seq<char>)
    ensures
        put(put(m, k, first), k, last) == put(m, k, last),
{
    lemma_key_index_is_first(m, k);
    let once = put(m, k, first);
    match key_index(m, k) {
        Some(i) => {
            assert(is_first_key(once, k, i));
            lemma_key_index(once, k, i);
            assert(once.update(i, (k, last)) == m.update(i, (k, last)));
        },
        None => {
            assert(is_first_key(once, k, m.len() as int));
            lemma_key_index(once, k, m.len() as int);
            assert(once.update(m.len() as int, (k, last)) == m.push((k, last)));
        },
    }
}

/// The place of the first entry of `v` with the key `k`.
pub fn find_key(v: &Vec<(String, String)>, k: &String) -> (r: Option<usize>)
    ensures
        match r {
            Some(i) => key_index(pairs_view(v@), k@) == Some(i as int) && i < v.len(),
            None => key_index(pairs_view(v@), k@).is_none(),
        },
{
    let mut i: usize = 0;
    while i < v.len()
        invariant
            i <= v.len(),
            forall|j: int| 0 <= j < i ==> pairs_view(v@)[j].0 != k@,
        decreases v.len() - i,
    {
        if v[i].0 == *k {
            proof {
                lemma_key_index(pairs_view(v@), k@, i as int);
            }
            return Some(i);
        }
        i += 1;
    }
    proof {
        lemma_no_key_index(pairs_view(v@), k@);
    }
    None
}

/// Sets the key `k` to `val` in `v`.
pub fn put_entry(v: &mut Vec<(String, String)>, k: String, val: String)
    ensures
        pairs_view(final(v)@) == put(pairs_view(old(v)@), k@, val@),
{
    match find_key(v, &k) {
        Some(i) => {
            v.set(i, (k, val));
            assert(pairs_view(v@) == pairs_view(old(v)@).update(i as int, (k@, val@)));
        },
        None => {
            v.push((k, val));
            assert(pairs_view(v@) == pairs_view(old(v)@).push((k@, val@)));
        },
    }
}

/// A copy of `v`.
pub fn clone_entries(v: &Vec<(String, String)>) -> (r: Vec<(String, String)>)
    ensures
        pairs_view(r@) == pairs_view(v@),
{
    let mut r: Vec<(String, String)> = Vec::new();
    let mut i: usize = 0;
    while i < v.len()
        invariant
            i <= v.len(),
            pairs_view(r@) == pairs_view(v@).take(i as int),
        decreases v.len() - i,
    {
        r.push((v[i].0.clone(), v[i].1.clone()));
        assert(pairs_view(r@) == pairs_view(v@).take(i as int).push(pairs_view(v@)[i as int]));
        i += 1;
    }
    r
}

/// Whether `k` is one of `keys`.
pub fn contains_string(keys: &[String], k: &String) -> (r: bool)
    ensures
        r == strings_view(keys@).contains(k@),
{
    let mut i: usize = 0;
    while i < keys.len()
        invariant
            i <= keys.len(),
            forall|j: int| 0 <= j < i ==> strings_view(keys@)[j] != k@,
        decreases keys.len() - i,
    {
        if keys[i] == *k {
            assert(strings_view(keys@)[i as int] == k@);
            return true;
        }
        i += 1;
    }
    false
}

/// Whether two lists hold the same strings in the same order.
pub fn same_strings(a: &Vec<String>, b: &Vec<String>) -> (r: bool)
    ensures
        r == (strings_view(a@) == strings_view(b@)),
{
    if a.len() != b.len() {
        assert(strings_view(a@).len() != strings_view(b@).len());
        return false;
    }
    let mut i: usize = 0;
    while i < a.len()
        invariant
            i <= a.len(),
            a.len() == b.len(),
            forall|j: int| 0 <= j < i ==> a@[j]@ == b@[j]@,
        decreases a.len() - i,
    {
        if a[i] != b[i] {
            assert(strings_view(a@)[i as int] != strings_view(b@)[i as int]);
            return false;
        }
        i += 1;
    }
    assert(strings_view(a@) =~= strings_view(b@));
    true
}

/// The entries of `v` whose key is none of `keys`, in their order.
pub fn remove_keys(v: &Vec<(String, String)>, keys: &[String]) -> (r: Vec<(String, String)>)
    ensures
        pairs_view(r@) == without_keys(pairs_view(v@), strings_view(keys@)),
{
    let mut r: Vec<(String, String)> = Vec::new();
    let ghost m = pairs_view(v@);
    let mut i: usize = 0;
    while i < v.len()
        invariant
            i <= v.len(),
            m == pairs_view(v@),
            pairs_view(r@) == without_keys(m.take(i as int), strings_view(keys@)),
        decreases v.len() - i,
    {
        proof {
            assert(m.take(i as int + 1).drop_last() == m.take(i as int));
            assert(m.take(i as int + 1).last() == m[i as int]);
        }
        if !contains_string(keys, &v[i].0) {
            let ghost before = pairs_view(r@);
            r.push((v[i].0.clone(), v[i].1.clone()));
            assert(pairs_view(r@) == before.push(m[i as int]));
        }
        i += 1;
    }
    assert(m.take(v.len() as int) == m);
    r
}

} // verus!
