//! Sequences of (key, value) entries used as maps that keep insertion order.

use vstd::prelude::*;

verus! {

/// The value of the last entry of `s` whose key has the characters `k`.
pub open spec fn value_at<T>(s: Seq<(String, T)>, k: Seq<char>) -> Option<T>
    decreases s.len(),
{
    if s.len() == 0 {
        None
    } else if s.last().0@ == k {
        Some(s.last().1)
    } else {
        value_at(s.drop_last(), k)
    }
}

/// No two entries of `s` have keys with the same characters.
pub open spec fn keys_distinct<T>(s: Seq<(String, T)>) -> bool {
    forall|i: int, j: int| 0 <= i < j < s.len() ==> s[i].0@ != s[j].0@
}

/// The index of the first entry of `s` whose key has the characters of `k`.
pub fn position<T>(s: &Vec<(String, T)>, k: &String) -> (r: Option<usize>)
    ensures
        match r {
            Some(i) => {
                &&& i < s@.len()
                &&& s@[i as int].0@ == k@
                &&& forall|j: int| 0 <= j < i ==> s@[j].0@ != k@
            },
            None => forall|j: int| 0 <= j < s@.len() ==> s@[j].0@ != k@,
        },
{
    let mut i: usize = 0;
    while i < s.len()
        invariant
            i <= s@.len(),
            forall|j: int| 0 <= j < i ==> s@[j].0@ != k@,
        decreases s@.len() - i,
    {
        if s[i].0 == *k {
            return Some(i);
        }
        i += 1;
    }
    None
}

/// A key that no entry has has no value.
pub proof fn lemma_value_absent<T>(s: Seq<(String, T)>, k: Seq<char>)
    requires
        forall|j: int| 0 <= j < s.len() ==> s[j].0@ != k,
    ensures
        value_at(s, k) is None,
    decreases s.len(),
{
    if s.len() > 0 {
        lemma_value_absent(s.drop_last(), k);
    }
}

/// With distinct keys, the value of a key is that of its entry.
pub proof fn lemma_value_present<T>(s: Seq<(String, T)>, i: int)
    requires
        keys_distinct(s),
        0 <= i < s.len(),
    ensures
        value_at(s, s[i].0@) == Some(s[i].1),
    decreases s.len(),
{
    if i < s.len() - 1 {
        assert(s.last() == s[s.len() - 1]);
        lemma_value_present(s.drop_last(), i);
    }
}

/// Replacing the value of an entry, under the same key, leaves every other
/// key's value as it was.
pub proof fn lemma_value_update<T>(s: Seq<(String, T)>, i: int, x: (String, T), k: Seq<char>)
    requires
        0 <= i < s.len(),
        x.0@ == s[i].0@,
        k != x.0@,
    ensures
        value_at(s.update(i, x), k) == value_at(s, k),
    decreases s.len(),
{
    let u = s.update(i, x);
    if i < s.len() - 1 {
        assert(u.drop_last() =~= s.drop_last().update(i, x));
        lemma_value_update(s.drop_last(), i, x, k);
    } else {
        assert(u.drop_last() =~= s.drop_last());
    }
}

/// Replacing the value of an entry, under the same key, keeps the keys distinct.
pub proof fn lemma_update_distinct<T>(s: Seq<(String, T)>, i: int, x: (String, T))
    requires
        keys_distinct(s),
        0 <= i < s.len(),
        x.0@ == s[i].0@,
    ensures
        keys_distinct(s.update(i, x)),
{
    let u = s.update(i, x);
    assert forall|a: int, b: int| 0 <= a < b < u.len() implies u[a].0@ != u[b].0@ by {
        assert(s[a].0@ != s[b].0@);
    };
}

/// Appending an entry with a new key keeps the keys distinct.
pub proof fn lemma_push_distinct<T>(s: Seq<(String, T)>, x: (String, T))
    requires
        keys_distinct(s),
        forall|j: int| 0 <= j < s.len() ==> s[j].0@ != x.0@,
    ensures
        keys_distinct(s.push(x)),
{
    let p = s.push(x);
    assert forall|a: int, b: int| 0 <= a < b < p.len() implies p[a].0@ != p[b].0@ by {
        if b == s.len() {
            assert(p[a] == s[a]);
        } else {
            assert(p[a] == s[a] && p[b] == s[b]);
        }
    };
}

} // verus!
